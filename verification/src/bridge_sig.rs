//! The `extern "C"` functions of the bridge: the signature of the function
//! of each method (its handle, its parameters, its out-parameters and its
//! return type), and how the function hands back what the method returns.

use vstd::prelude::*;
use crate::convert::{MetaMethod, MetaParamKind, MetaReceiver, MetaReturn};
use crate::syntax::{arg_type, GenericArgument, PathArguments, TypeExpr};
use crate::text::{owned, push_str, str_eq};

verus! {

// ---------------------------------------------------------------------------
// Handles among return types
// ---------------------------------------------------------------------------

/// The ok type of `Result<T, ..>` (a path whose last segment is `Result`
/// with a type as first argument); any other type as it is.
pub open spec fn result_ok_type(ty: TypeExpr) -> TypeExpr {
    match ty {
        TypeExpr::Path(p) => if p.segments@.len() > 0 && p.segments@.last().ident@ == "Result"@ {
            match p.segments@.last().arguments {
                PathArguments::AngleBracketed(args) => if args@.len() > 0 && arg_type(args@[0]) is Some {
                    arg_type(args@[0])->0
                } else {
                    ty
                },
                _ => ty,
            }
        } else {
            ty
        },
        _ => ty,
    }
}

/// The last identifier of a path type.
pub open spec fn path_type_name(ty: TypeExpr) -> Option<Seq<char>> {
    match ty {
        TypeExpr::Path(p) => if p.segments@.len() > 0 {
            Some(p.segments@.last().ident@)
        } else {
            None
        },
        _ => None,
    }
}

/// The ok type of the method's Rust return type is `Self` or one of the
/// library's handle types.
pub open spec fn ok_is_handle_spec(rust_ret: TypeExpr, handle_types: Seq<Seq<char>>) -> bool {
    match path_type_name(result_ok_type(rust_ret)) {
        Some(n) => n == "Self"@ || handle_types.contains(n),
        None => false,
    }
}

/// The views of a list of names.
pub open spec fn names_view(v: Seq<String>) -> Seq<Seq<char>> {
    v.map_values(|s: String| s@)
}

/// The ok type of `Result<T, ..>`, or the type itself.
pub fn extract_result_ok_type(ty: &TypeExpr) -> (r: &TypeExpr)
    ensures
        *r == result_ok_type(*ty),
{
    if let TypeExpr::Path(p) = ty {
        let n = p.segments.len();
        if n > 0 && str_eq(p.segments[n - 1].ident.as_str(), "Result") {
            if let PathArguments::AngleBracketed(args) = &p.segments[n - 1].arguments {
                if args.len() > 0 {
                    if let GenericArgument::Type(t) = &args[0] {
                        return t;
                    }
                }
            }
        }
    }
    ty
}

fn contains_name(v: &Vec<String>, n: &str) -> (r: bool)
    ensures
        r == names_view(v@).contains(n@),
{
    let mut i: usize = 0;
    while i < v.len()
        invariant
            i <= v@.len(),
            forall|j: int| 0 <= j < i ==> v@[j]@ != n@,
        decreases v@.len() - i,
    {
        if str_eq(v[i].as_str(), n) {
            assert(names_view(v@)[i as int] == n@);
            return true;
        }
        i = i + 1;
    }
    assert forall|j: int| 0 <= j < names_view(v@).len() implies names_view(v@)[j] != n@ by {
        assert(names_view(v@)[j] == v@[j]@);
    }
    false
}

/// The last identifier of a path type.
pub fn last_type_ident(ty: &TypeExpr) -> (r: Option<String>)
    ensures
        match r {
            Some(n) => path_type_name(*ty) == Some(n@),
            None => path_type_name(*ty) is None,
        },
{
    match ty {
        TypeExpr::Path(p) => {
            let n = p.segments.len();
            if n > 0 {
                Some(p.segments[n - 1].ident.clone())
            } else {
                None
            }
        },
        _ => None,
    }
}

/// Whether the ok value of a `Result` return is a handle (`Self` or a
/// handle type of the library), judged from the method's Rust return type.
pub fn is_result_ok_handle(rust_ret: &TypeExpr, handle_types: &Vec<String>) -> (r: bool)
    ensures
        r == ok_is_handle_spec(*rust_ret, names_view(handle_types@)),
{
    match last_type_ident(extract_result_ok_type(rust_ret)) {
        Some(name) => str_eq(name.as_str(), "Self") || contains_name(handle_types, name.as_str()),
        None => false,
    }
}

// ---------------------------------------------------------------------------
// Signatures
// ---------------------------------------------------------------------------

/// A C type in an extern signature of the bridge.
#[derive(PartialEq, Eq, Debug)]
pub enum CTypeTokens {
    /// `*mut core::ffi::c_void`.
    VoidPtr,
    /// `*mut *mut core::ffi::c_void`.
    VoidPtrPtr,
    /// `<T as FfiType>::CRepr` for the bridge type `T` (its text).
    Repr(String),
    /// `*mut <T as FfiType>::CRepr`.
    OutRepr(String),
    /// `*const ffier::FfierBytes`.
    BytesPtr,
    /// `usize`.
    Usize,
}

/// The return type of an extern function of the bridge.
#[derive(PartialEq, Eq, Debug)]
pub enum CRetTokens {
    Void,
    /// `<T as FfiType>::CRepr`.
    Repr(String),
    /// `*mut core::ffi::c_void`: a handle, null on error.
    VoidPtr,
    /// `ffier::FfierResult`: a packed error code.
    FfierResult,
    /// `ffier::FfierError`: an error code.
    FfierError,
}

/// One parameter of an extern function.
pub struct CExternParam {
    pub name: String,
    pub c_type: CTypeTokens,
}

/// The extern function of a method.
pub struct CExternSignature {
    pub fn_name: String,
    pub params: Vec<CExternParam>,
    pub ret: CRetTokens,
}

/// A C type as plain values.
pub enum CTypeView {
    VoidPtr,
    VoidPtrPtr,
    Repr(Seq<char>),
    OutRepr(Seq<char>),
    BytesPtr,
    Usize,
}

/// A return type as plain values.
pub enum CRetView {
    Void,
    Repr(Seq<char>),
    VoidPtr,
    FfierResult,
    FfierError,
}

/// The view of a C type.
pub open spec fn ctype_view(t: CTypeTokens) -> CTypeView {
    match t {
        CTypeTokens::VoidPtr => CTypeView::VoidPtr,
        CTypeTokens::VoidPtrPtr => CTypeView::VoidPtrPtr,
        CTypeTokens::Repr(s) => CTypeView::Repr(s@),
        CTypeTokens::OutRepr(s) => CTypeView::OutRepr(s@),
        CTypeTokens::BytesPtr => CTypeView::BytesPtr,
        CTypeTokens::Usize => CTypeView::Usize,
    }
}

/// The view of a return type.
pub open spec fn cret_view(t: CRetTokens) -> CRetView {
    match t {
        CRetTokens::Void => CRetView::Void,
        CRetTokens::Repr(s) => CRetView::Repr(s@),
        CRetTokens::VoidPtr => CRetView::VoidPtr,
        CRetTokens::FfierResult => CRetView::FfierResult,
        CRetTokens::FfierError => CRetView::FfierError,
    }
}

/// The views of the parameters of an extern function.
pub open spec fn cparams_view(ps: Seq<CExternParam>) -> Seq<(Seq<char>, CTypeView)> {
    ps.map_values(|p: CExternParam| (p.name@, ctype_view(p.c_type)))
}

/// The C type of a parameter kind.
pub open spec fn c_param_type_spec(k: MetaParamKind) -> CTypeView {
    match k {
        MetaParamKind::Regular(t) => CTypeView::Repr(t@),
        MetaParamKind::ImplTrait { .. } => CTypeView::VoidPtr,
        MetaParamKind::StrSlice => CTypeView::BytesPtr,
    }
}

/// The C parameters of the method's parameters: one each, and for a
/// `&[&str]` also its length `<name>_len`.
pub open spec fn c_params_spec(ps: Seq<crate::convert::MetaParam>) -> Seq<(Seq<char>, CTypeView)>
    decreases ps.len(),
{
    if ps.len() == 0 {
        Seq::empty()
    } else {
        let p = ps.last();
        let rest = c_params_spec(ps.drop_last());
        if p.kind is StrSlice {
            rest.push((p.name@, c_param_type_spec(p.kind))).push((p.name@ + "_len"@, CTypeView::Usize))
        } else {
            rest.push((p.name@, c_param_type_spec(p.kind)))
        }
    }
}

/// A builder method that takes `self` and returns `Result<Self, E>`: the
/// new handle is written back through the handle.
pub open spec fn builder_self_result(m: MetaMethod) -> bool {
    m.is_builder && m.receiver == MetaReceiver::Value
}

/// The out-parameters and return type of the method's return: a value is
/// returned; a `Result` whose ok value is a handle returns the handle (null
/// on error) and writes the error through `err_out`; any other `Result`
/// returns a packed error code, writes the ok value through `result` (unless
/// the method is a builder that takes `self`) and the error through
/// `err_out`.
pub open spec fn c_return_spec(m: MetaMethod, ok_is_handle: bool) -> (Seq<(Seq<char>, CTypeView)>, CRetView) {
    match m.ret {
        MetaReturn::Void => (Seq::empty(), CRetView::Void),
        MetaReturn::Value(t) => (Seq::empty(), CRetView::Repr(t@)),
        MetaReturn::Result { ok, .. } => if ok is Some && ok_is_handle && !builder_self_result(m) {
            (seq![("err_out"@, CTypeView::VoidPtrPtr)], CRetView::VoidPtr)
        } else {
            let result = if !builder_self_result(m) && ok is Some {
                seq![("result"@, CTypeView::OutRepr(ok->0@))]
            } else {
                Seq::empty()
            };
            (result.push(("err_out"@, CTypeView::VoidPtrPtr)), CRetView::FfierResult)
        },
    }
}

/// The extern function of a method: `<prefix>_<C name>`, taking the handle
/// (for a method with a receiver), then the parameters, then the
/// out-parameters of its return.
pub open spec fn c_signature_spec(m: MetaMethod, ffi_name: Seq<char>, prefix: Seq<char>, ok_is_handle: bool) -> (
    Seq<char>,
    Seq<(Seq<char>, CTypeView)>,
    CRetView,
) {
    let handle = if m.receiver != MetaReceiver::NoSelf {
        seq![("handle"@, CTypeView::VoidPtr)]
    } else {
        Seq::empty()
    };
    let (outs, ret) = c_return_spec(m, ok_is_handle);
    (prefix + "_"@ + ffi_name, handle + c_params_spec(m.params@) + outs, ret)
}

fn c_param_type(k: &MetaParamKind) -> (r: CTypeTokens)
    ensures
        ctype_view(r) == c_param_type_spec(*k),
{
    match k {
        MetaParamKind::Regular(t) => CTypeTokens::Repr(t.clone()),
        MetaParamKind::ImplTrait { .. } => CTypeTokens::VoidPtr,
        MetaParamKind::StrSlice => CTypeTokens::BytesPtr,
    }
}

pub(crate) fn push_param(out: &mut Vec<CExternParam>, name: String, c_type: CTypeTokens)
    ensures
        cparams_view(final(out)@) == cparams_view(old(out)@).push((name@, ctype_view(c_type))),
{
    let ghost before = out@;
    let p = CExternParam { name, c_type };
    out.push(p);
    assert(cparams_view(out@) =~= cparams_view(before).push((p.name@, ctype_view(p.c_type))));
}

/// The extern function of a method, for a library with C prefix `prefix`;
/// `rust_ret` is the method's Rust return type (when it has one) and
/// `handle_types` the names of the library's handle types.
pub fn c_signature_for_method(
    m: &MetaMethod,
    ffi_name: &str,
    prefix: &str,
    rust_ret: Option<&TypeExpr>,
    handle_types: &Vec<String>,
) -> (r: CExternSignature)
    ensures
        (r.fn_name@, cparams_view(r.params@), cret_view(r.ret)) == c_signature_spec(
            *m,
            ffi_name@,
            prefix@,
            match rust_ret {
                Some(t) => ok_is_handle_spec(*t, names_view(handle_types@)),
                None => false,
            },
        ),
{
    let ok_is_handle = match rust_ret {
        Some(t) => is_result_ok_handle(t, handle_types),
        None => false,
    };
    let mut fn_name = owned(prefix);
    push_str(&mut fn_name, "_");
    push_str(&mut fn_name, ffi_name);
    let mut params: Vec<CExternParam> = Vec::new();
    if m.receiver != MetaReceiver::NoSelf {
        push_param(&mut params, owned("handle"), CTypeTokens::VoidPtr);
    }
    let ghost head = cparams_view(params@);
    let mut i: usize = 0;
    assert(m.params@.take(0) =~= Seq::<crate::convert::MetaParam>::empty());
    assert(head + c_params_spec(m.params@.take(0)) =~= head);
    while i < m.params.len()
        invariant
            i <= m.params@.len(),
            cparams_view(params@) == head + c_params_spec(m.params@.take(i as int)),
        decreases m.params@.len() - i,
    {
        let p = &m.params[i];
        assert(m.params@.take(i + 1).drop_last() =~= m.params@.take(i as int));
        assert(m.params@.take(i + 1).last() == m.params@[i as int]);
        push_param(&mut params, p.name.clone(), c_param_type(&p.kind));
        if let MetaParamKind::StrSlice = &p.kind {
            let mut len_name = p.name.clone();
            push_str(&mut len_name, "_len");
            push_param(&mut params, len_name, CTypeTokens::Usize);
        }
        i = i + 1;
        assert(cparams_view(params@) =~= head + c_params_spec(m.params@.take(i as int)));
    }
    assert(m.params@.take(m.params@.len() as int) =~= m.params@);
    let ghost mid = cparams_view(params@);
    let builder_self = m.is_builder && m.receiver == MetaReceiver::Value;
    let ret = match &m.ret {
        MetaReturn::Void => CRetTokens::Void,
        MetaReturn::Value(t) => CRetTokens::Repr(t.clone()),
        MetaReturn::Result { ok, .. } => {
            if ok.is_some() && ok_is_handle && !builder_self {
                push_param(&mut params, owned("err_out"), CTypeTokens::VoidPtrPtr);
                CRetTokens::VoidPtr
            } else {
                if !builder_self {
                    match ok {
                        Some(t) => push_param(&mut params, owned("result"), CTypeTokens::OutRepr(t.clone())),
                        None => {},
                    }
                }
                push_param(&mut params, owned("err_out"), CTypeTokens::VoidPtrPtr);
                CRetTokens::FfierResult
            }
        },
    };
    let ghost outs = c_return_spec(
        *m,
        match rust_ret {
            Some(t) => ok_is_handle_spec(*t, names_view(handle_types@)),
            None => false,
        },
    ).0;
    assert(cparams_view(params@) =~= mid + outs);
    CExternSignature { fn_name, params, ret }
}

// ---------------------------------------------------------------------------
// Returns
// ---------------------------------------------------------------------------

/// What the bridge does with the ok value of a `Result` returned as a code.
#[derive(PartialEq, Eq, Debug)]
pub enum OkHandling {
    /// Writes it through `result`.
    WriteResult,
    /// Writes the new handle back through the handle (a builder taking
    /// `self`).
    WriteBackHandle,
    /// There is nothing to write.
    Discard,
}

/// How the bridge hands back what a method returns.
#[derive(PartialEq, Eq, Debug)]
pub enum ReturnPlan {
    /// Nothing is returned; a builder taking `self` writes the new handle
    /// back through the handle.
    Void { write_back: bool },
    /// The value is returned as its C representation.
    Value,
    /// The handle is returned, or null on error; the error is boxed into
    /// `err_out` when its type is known.
    HandleOrNull { box_error: bool },
    /// A packed error code is returned, with the error type's tag (0 when
    /// unknown); on error a builder taking `self` clears the handle.
    Code { ok: OkHandling, err_tag: u32, clear_handle_on_error: bool, box_error: bool },
}

/// How the bridge hands back the method's return, given whether its ok
/// value is a handle and the type tag of its error type when the library
/// knows that type.
pub open spec fn return_plan_spec(m: MetaMethod, ok_is_handle: bool, err_tag: Option<u32>) -> ReturnPlan {
    match m.ret {
        MetaReturn::Void => ReturnPlan::Void { write_back: builder_self_result(m) },
        MetaReturn::Value(_) => ReturnPlan::Value,
        MetaReturn::Result { ok, .. } => if ok is Some && ok_is_handle {
            ReturnPlan::HandleOrNull { box_error: err_tag is Some }
        } else {
            ReturnPlan::Code {
                ok: if ok is Some {
                    OkHandling::WriteResult
                } else if builder_self_result(m) {
                    OkHandling::WriteBackHandle
                } else {
                    OkHandling::Discard
                },
                err_tag: match err_tag {
                    Some(t) => t,
                    None => 0,
                },
                clear_handle_on_error: builder_self_result(m),
                box_error: err_tag is Some,
            }
        },
    }
}

/// How the bridge hands back what a method returns (`err_tag` is the type
/// tag of the error type of a `Result` return, when the library knows it).
pub fn wrap_return(m: &MetaMethod, rust_ret: Option<&TypeExpr>, handle_types: &Vec<String>, err_tag: Option<u32>) -> (r: ReturnPlan)
    ensures
        r == return_plan_spec(
            *m,
            match rust_ret {
                Some(t) => ok_is_handle_spec(*t, names_view(handle_types@)),
                None => false,
            },
            err_tag,
        ),
{
    let builder_self = m.is_builder && m.receiver == MetaReceiver::Value;
    match &m.ret {
        MetaReturn::Void => ReturnPlan::Void { write_back: builder_self },
        MetaReturn::Value(_) => ReturnPlan::Value,
        MetaReturn::Result { ok, .. } => {
            let ok_is_handle = match rust_ret {
                Some(t) => is_result_ok_handle(t, handle_types),
                None => false,
            };
            if ok.is_some() && ok_is_handle {
                ReturnPlan::HandleOrNull { box_error: err_tag.is_some() }
            } else {
                let okh = if ok.is_some() {
                    OkHandling::WriteResult
                } else if builder_self {
                    OkHandling::WriteBackHandle
                } else {
                    OkHandling::Discard
                };
                let tag = match err_tag {
                    Some(t) => t,
                    None => 0,
                };
                ReturnPlan::Code { ok: okh, err_tag: tag, clear_handle_on_error: builder_self, box_error: err_tag.is_some() }
            }
        },
    }
}

/// The extern signature and the return plan of a method agree on the
/// calling convention: the function returns a handle (null on error) with
/// only `err_out` added exactly when the plan returns the handle, and a
/// packed code with `err_out` last exactly when the plan returns a code;
/// an ok value is written through `result` exactly when the plan writes it.
pub proof fn lemma_signature_matches_return(m: MetaMethod, ffi_name: Seq<char>, prefix: Seq<char>, ok_is_handle: bool, err_tag: Option<u32>)
    requires
        m.ret matches MetaReturn::Result { ok, .. } && (builder_self_result(m) ==> ok is None),
    ensures
        (return_plan_spec(m, ok_is_handle, err_tag) is HandleOrNull) <==> (c_signature_spec(m, ffi_name, prefix, ok_is_handle).2
            == CRetView::VoidPtr),
        (return_plan_spec(m, ok_is_handle, err_tag) is Code) <==> (c_signature_spec(m, ffi_name, prefix, ok_is_handle).2
            == CRetView::FfierResult),
        (return_plan_spec(m, ok_is_handle, err_tag) matches ReturnPlan::Code { ok: OkHandling::WriteResult, .. }) <==> c_return_spec(
            m,
            ok_is_handle,
        ).0.contains(("result"@, CTypeView::OutRepr(m.ret->ok->0@))),
        c_return_spec(m, ok_is_handle).0.last() == ("err_out"@, CTypeView::VoidPtrPtr),
{
    let outs = c_return_spec(m, ok_is_handle).0;
    if let MetaReturn::Result { ok, .. } = m.ret {
        if ok is Some && ok_is_handle && !builder_self_result(m) {
            assert(outs =~= seq![("err_out"@, CTypeView::VoidPtrPtr)]);
            assert(!outs.contains(("result"@, CTypeView::OutRepr(ok->0@)))) by {
                if outs.contains(("result"@, CTypeView::OutRepr(ok->0@))) {
                    let k = choose|k: int| 0 <= k < outs.len() && outs[k] == ("result"@, CTypeView::OutRepr(ok->0@));
                    reveal_strlit("result");
                    reveal_strlit("err_out");
                    assert(outs[k].0.len() != ("result"@).len());
                }
            }
        } else if ok is Some {
            assert(outs[0] == ("result"@, CTypeView::OutRepr(ok->0@)));
        } else {
            assert(outs =~= seq![("err_out"@, CTypeView::VoidPtrPtr)]);
            assert(!outs.contains(("result"@, CTypeView::OutRepr(ok->0@)))) by {
                if outs.contains(("result"@, CTypeView::OutRepr(ok->0@))) {
                    let k = choose|k: int| 0 <= k < outs.len() && outs[k] == ("result"@, CTypeView::OutRepr(ok->0@));
                    reveal_strlit("result");
                    reveal_strlit("err_out");
                    assert(outs[k].0.len() != ("result"@).len());
                }
            }
        }
    }
}

} // verus!
