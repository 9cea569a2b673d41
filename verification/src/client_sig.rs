//! Signatures in the Rust client bindings: the `extern "C"` declarations of
//! the library's functions, the arguments passed to them, and the
//! signatures of the safe wrappers.
//!
//! Parameter and return types are given with their Rust type text already
//! rendered (`rust_type`, and `static_type` with lifetimes made `'static`).

use vstd::prelude::*;
use crate::header::Receiver;
use crate::text::{chars_of, join_spec, join_strings, owned, push_char, push_str, strings_view};

verus! {

// ---------------------------------------------------------------------------
// Parameters and returns
// ---------------------------------------------------------------------------

/// The type of a parameter of a client function.
pub enum ClientParamType {
    /// A regular parameter; `borrowed_handle` when it is a reference to an
    /// exported handle type.
    Regular { rust_type: String, static_type: String, borrowed_handle: bool },
    /// `&[&str]`.
    Slice,
    /// `impl Trait<'a, ..>`, with the trait's lifetime arguments.
    ImplTrait { trait_name: String, type_args: Vec<String> },
}

/// A parameter of a client function.
pub struct ClientParam {
    pub name: String,
    pub param_type: ClientParamType,
}

/// A Rust type as the client writes it.
pub struct TypeText {
    /// The type as written in a wrapper (`&'a str`).
    pub rust_type: String,
    /// The type with its lifetimes made `'static`, for extern declarations.
    pub static_type: String,
    /// The type's bare name when it is a reference to an exported handle type.
    pub borrowed_handle: Option<String>,
}

/// What a client function returns.
pub enum MethodReturn {
    Void,
    Value(TypeText),
    /// `Result<ok, err_type>`; `handle_or_null` when the C function returns
    /// the success handle (NULL on error) rather than a result code.
    Result { ok: Option<TypeText>, err_type: String, handle_or_null: bool },
}

/// `<T as FfiType>::CRepr`.
pub open spec fn c_repr(t: Seq<char>) -> Seq<char> {
    "<"@ + t + " as FfiType>::CRepr"@
}

/// The extern parameters of one parameter, with names.
pub open spec fn extern_params_of(p: ClientParam) -> Seq<Seq<char>> {
    match p.param_type {
        ClientParamType::Regular { static_type, .. } => seq![p.name@ + ": "@ + c_repr(static_type@)],
        ClientParamType::Slice => seq![p.name@ + ": *const ffier::FfierBytes"@, p.name@ + "_len: usize"@],
        ClientParamType::ImplTrait { .. } => seq![p.name@ + ": *mut core::ffi::c_void"@],
    }
}

/// The extern parameters of one parameter, types only.
pub open spec fn extern_param_types_of(p: ClientParam) -> Seq<Seq<char>> {
    match p.param_type {
        ClientParamType::Regular { static_type, .. } => seq![c_repr(static_type@)],
        ClientParamType::Slice => seq!["*const ffier::FfierBytes"@, "usize"@],
        ClientParamType::ImplTrait { .. } => seq!["*mut core::ffi::c_void"@],
    }
}

/// The arguments passed to the library for one parameter.
pub open spec fn ffi_args_of(p: ClientParam) -> Seq<Seq<char>> {
    match p.param_type {
        ClientParamType::Regular { rust_type, borrowed_handle, .. } => if borrowed_handle {
            seq!["FfiHandle::as_handle("@ + p.name@ + ")"@]
        } else {
            seq!["<"@ + rust_type@ + " as FfiType>::into_c("@ + p.name@ + ")"@]
        },
        ClientParamType::Slice => seq!["__ffi_"@ + p.name@ + ".as_ptr()"@, "__ffi_"@ + p.name@ + ".len()"@],
        ClientParamType::ImplTrait { .. } => seq![p.name@ + ".__into_raw_handle()"@],
    }
}

/// Which per-parameter list.
#[derive(Clone, Copy, Debug, PartialEq, Eq, Structural)]
pub enum ParamList {
    ExternParams,
    ExternTypes,
    FfiArgs,
}

/// One per-parameter list for one parameter.
pub open spec fn param_items(kind: ParamList, p: ClientParam) -> Seq<Seq<char>> {
    match kind {
        ParamList::ExternParams => extern_params_of(p),
        ParamList::ExternTypes => extern_param_types_of(p),
        ParamList::FfiArgs => ffi_args_of(p),
    }
}

/// One per-parameter list for all parameters, in order.
pub open spec fn params_items(kind: ParamList, ps: Seq<ClientParam>) -> Seq<Seq<char>>
    decreases ps.len(),
{
    if ps.len() == 0 {
        Seq::empty()
    } else {
        params_items(kind, ps.drop_last()) + param_items(kind, ps.last())
    }
}

fn concat(a: &str, b: &str) -> (r: String)
    ensures
        r@ == a@ + b@,
{
    let mut s = owned(a);
    push_str(&mut s, b);
    s
}

fn joined(a: &str, b: &str, c: &str) -> (r: String)
    ensures
        r@ == a@ + b@ + c@,
{
    let mut s = owned(a);
    push_str(&mut s, b);
    push_str(&mut s, c);
    s
}

fn push_param_items(kind: ParamList, p: &ClientParam, out: &mut Vec<String>)
    ensures
        strings_view(final(out)@) == strings_view(old(out)@) + param_items(kind, *p),
{
    let ghost o0 = strings_view(out@);
    let name = p.name.as_str();
    match &p.param_type {
        ClientParamType::Regular { rust_type, static_type, borrowed_handle } => {
            let item = match kind {
                ParamList::ExternParams => {
                    let repr = joined("<", static_type.as_str(), " as FfiType>::CRepr");
                    joined(name, ": ", repr.as_str())
                },
                ParamList::ExternTypes => joined("<", static_type.as_str(), " as FfiType>::CRepr"),
                ParamList::FfiArgs => if *borrowed_handle {
                    joined("FfiHandle::as_handle(", name, ")")
                } else {
                    let head = joined("<", rust_type.as_str(), " as FfiType>::into_c(");
                    joined(head.as_str(), name, ")")
                },
            };
            let ghost iv = item@;
            out.push(item);
            assert(strings_view(out@) =~= o0 + seq![iv]);
        },
        ClientParamType::Slice => {
            let (a, b) = match kind {
                ParamList::ExternParams => (concat(name, ": *const ffier::FfierBytes"), concat(name, "_len: usize")),
                ParamList::ExternTypes => (owned("*const ffier::FfierBytes"), owned("usize")),
                ParamList::FfiArgs => (joined("__ffi_", name, ".as_ptr()"), joined("__ffi_", name, ".len()")),
            };
            let ghost av = a@;
            let ghost bv = b@;
            out.push(a);
            out.push(b);
            assert(strings_view(out@) =~= o0 + seq![av, bv]);
        },
        ClientParamType::ImplTrait { .. } => {
            let item = match kind {
                ParamList::ExternParams => concat(name, ": *mut core::ffi::c_void"),
                ParamList::ExternTypes => owned("*mut core::ffi::c_void"),
                ParamList::FfiArgs => concat(name, ".__into_raw_handle()"),
            };
            let ghost iv = item@;
            out.push(item);
            assert(strings_view(out@) =~= o0 + seq![iv]);
        },
    }
}

fn push_params_items(kind: ParamList, params: &[ClientParam], out: &mut Vec<String>)
    ensures
        strings_view(final(out)@) == strings_view(old(out)@) + params_items(kind, params@),
{
    let ghost o0 = strings_view(out@);
    let mut i: usize = 0;
    assert(params@.take(0) =~= Seq::<ClientParam>::empty());
    assert(strings_view(out@) =~= o0 + params_items(kind, params@.take(0)));
    while i < params.len()
        invariant
            i <= params@.len(),
            strings_view(out@) == o0 + params_items(kind, params@.take(i as int)),
        decreases params@.len() - i,
    {
        push_param_items(kind, &params[i], out);
        i = i + 1;
        assert(params@.take(i as int).drop_last() =~= params@.take(i - 1));
        assert(strings_view(out@) =~= o0 + params_items(kind, params@.take(i as int)));
    }
    assert(params@.take(params@.len() as int) =~= params@);
}

/// Appends the extern parameters (`name: <T as FfiType>::CRepr` etc.).
pub fn push_extern_params(params: &[ClientParam], out: &mut Vec<String>)
    ensures
        strings_view(final(out)@) == strings_view(old(out)@) + params_items(ParamList::ExternParams, params@),
{
    push_params_items(ParamList::ExternParams, params, out);
}

/// Appends the extern parameter types, without names (for vtable fields).
pub fn push_extern_param_types(params: &[ClientParam], out: &mut Vec<String>)
    ensures
        strings_view(final(out)@) == strings_view(old(out)@) + params_items(ParamList::ExternTypes, params@),
{
    push_params_items(ParamList::ExternTypes, params, out);
}

/// The arguments passed to the library for the parameters.
pub fn build_ffi_param_args(params: &[ClientParam]) -> (r: Vec<String>)
    ensures
        strings_view(r@) == params_items(ParamList::FfiArgs, params@),
{
    let mut out: Vec<String> = Vec::new();
    assert(strings_view(out@) =~= Seq::<Seq<char>>::empty());
    push_params_items(ParamList::FfiArgs, params, &mut out);
    out
}

/// The extra out-parameters and the return of an extern declaration; a
/// builder returns nothing and gets no result out-parameter.
pub open spec fn extern_return(ret: MethodReturn, is_builder: bool, named: bool) -> (Seq<Seq<char>>, Seq<char>) {
    let err = if named {
        "err_out: *mut *mut core::ffi::c_void"@
    } else {
        "*mut *mut core::ffi::c_void"@
    };
    match ret {
        MethodReturn::Void => (Seq::empty(), Seq::empty()),
        MethodReturn::Value(t) => if is_builder {
            (Seq::empty(), Seq::empty())
        } else {
            (Seq::empty(), " -> "@ + c_repr(t.static_type@))
        },
        MethodReturn::Result { ok, handle_or_null, .. } => if handle_or_null {
            (seq![err], " -> *mut core::ffi::c_void"@)
        } else {
            match ok {
                Some(t) => if is_builder {
                    (seq![err], " -> ffier::FfierResult"@)
                } else {
                    (
                        seq![
                            if named {
                                "result: *mut "@ + c_repr(t.static_type@)
                            } else {
                                "*mut "@ + c_repr(t.static_type@)
                            },
                            err,
                        ],
                        " -> ffier::FfierResult"@,
                    )
                },
                None => (seq![err], " -> ffier::FfierResult"@),
            }
        },
    }
}

fn push_return(ret: &MethodReturn, params: &mut Vec<String>, is_builder: bool, named: bool) -> (r: String)
    ensures
        strings_view(final(params)@) == strings_view(old(params)@) + extern_return(*ret, is_builder, named).0,
        r@ == extern_return(*ret, is_builder, named).1,
{
    let ghost p0 = strings_view(params@);
    let err = if named {
        "err_out: *mut *mut core::ffi::c_void"
    } else {
        "*mut *mut core::ffi::c_void"
    };
    let r = match ret {
        MethodReturn::Void => String::new(),
        MethodReturn::Value(t) => if is_builder {
            String::new()
        } else {
            let repr = joined("<", t.static_type.as_str(), " as FfiType>::CRepr");
            concat(" -> ", repr.as_str())
        },
        MethodReturn::Result { handle_or_null: true, .. } => {
            params.push(owned(err));
            owned(" -> *mut core::ffi::c_void")
        },
        MethodReturn::Result { ok, .. } => {
            match ok {
                Some(t) => {
                    if !is_builder {
                        let repr = joined("<", t.static_type.as_str(), " as FfiType>::CRepr");
                        let item = if named {
                            concat("result: *mut ", repr.as_str())
                        } else {
                            concat("*mut ", repr.as_str())
                        };
                        params.push(item);
                    }
                },
                None => {},
            }
            params.push(owned(err));
            owned(" -> ffier::FfierResult")
        },
    };
    proof {
        let e = extern_return(*ret, is_builder, named);
        assert(strings_view(params@) =~= p0 + e.0);
        assert(r@ =~= e.1);
    }
    r
}

/// Appends the extra out-parameters of a return and gives the return type
/// of the extern declaration.
pub fn push_return_and_out_params(ret: &MethodReturn, params: &mut Vec<String>, is_builder: bool) -> (r: String)
    ensures
        strings_view(final(params)@) == strings_view(old(params)@) + extern_return(*ret, is_builder, true).0,
        r@ == extern_return(*ret, is_builder, true).1,
{
    push_return(ret, params, is_builder, true)
}

/// The same for vtable fields: types only, and never a builder.
pub fn push_return_and_out_param_types(ret: &MethodReturn, out: &mut Vec<String>) -> (r: String)
    ensures
        strings_view(final(out)@) == strings_view(old(out)@) + extern_return(*ret, false, false).0,
        r@ == extern_return(*ret, false, false).1,
{
    push_return(ret, out, false, false)
}

// ---------------------------------------------------------------------------
// Extern declarations
// ---------------------------------------------------------------------------

/// `name(params)ret`: an extern declaration whose parameters are the
/// leading ones, the parameters' own, and the return's out-parameters.
pub open spec fn extern_sig(name: Seq<char>, leading: Seq<Seq<char>>, params: Seq<ClientParam>, ret: MethodReturn, is_builder: bool) -> Seq<char> {
    let e = extern_return(ret, is_builder, true);
    name + "("@ + join_spec(leading + params_items(ParamList::ExternParams, params) + e.0, ", "@) + ")"@ + e.1
}

fn extern_sig_of(name: &str, leading: Vec<String>, params: &[ClientParam], ret: &MethodReturn, is_builder: bool) -> (r: String)
    ensures
        r@ == extern_sig(name@, strings_view(leading@), params@, *ret, is_builder),
{
    let mut all = leading;
    push_extern_params(params, &mut all);
    let ret_str = push_return_and_out_params(ret, &mut all, is_builder);
    let list = join_strings(all.as_slice(), ", ");
    let mut s = owned(name);
    push_str(&mut s, "(");
    push_str(&mut s, list.as_str());
    push_str(&mut s, ")");
    push_str(&mut s, ret_str.as_str());
    s
}

/// The handle parameter of an extern declaration.
pub open spec fn handle_param() -> Seq<char> {
    "handle: *mut core::ffi::c_void"@
}

/// The extern declaration of a method: a handle parameter unless it is an
/// associated function.
pub fn build_extern_signature(ffi_name: &str, receiver: Receiver, params: &[ClientParam], ret: &MethodReturn, is_builder: bool) -> (r: String)
    ensures
        r@ == extern_sig(
            ffi_name@,
            if receiver == Receiver::NoSelf {
                Seq::empty()
            } else {
                seq![handle_param()]
            },
            params@,
            *ret,
            is_builder,
        ),
{
    let mut leading: Vec<String> = Vec::new();
    if receiver != Receiver::NoSelf {
        leading.push(owned("handle: *mut core::ffi::c_void"));
    }
    assert(strings_view(leading@) =~= if receiver == Receiver::NoSelf {
        Seq::<Seq<char>>::empty()
    } else {
        seq![handle_param()]
    });
    extern_sig_of(ffi_name, leading, params, ret, is_builder)
}

/// The extern declaration of a trait dispatch function.
pub fn build_dispatch_extern_sig(extern_name: &str, params: &[ClientParam], ret: &MethodReturn) -> (r: String)
    ensures
        r@ == extern_sig(extern_name@, seq![handle_param()], params@, *ret, false),
{
    let mut leading: Vec<String> = Vec::new();
    leading.push(owned("handle: *mut core::ffi::c_void"));
    assert(strings_view(leading@) =~= seq![handle_param()]);
    extern_sig_of(extern_name, leading, params, ret, false)
}

/// The extern declaration of a free function.
pub fn build_free_fn_extern_sig(ffi_name: &str, params: &[ClientParam], ret: &MethodReturn) -> (r: String)
    ensures
        r@ == extern_sig(ffi_name@, Seq::empty(), params@, *ret, false),
{
    let leading: Vec<String> = Vec::new();
    assert(strings_view(leading@) =~= Seq::<Seq<char>>::empty());
    extern_sig_of(ffi_name, leading, params, ret, false)
}

/// The `let` bindings converting each `&[&str]` parameter into the
/// library's byte-slice array before the call.
pub open spec fn slice_bindings_text(params: Seq<ClientParam>, indent: Seq<char>) -> Seq<char>
    decreases params.len(),
{
    if params.len() == 0 {
        Seq::empty()
    } else {
        let p = params.last();
        slice_bindings_text(params.drop_last(), indent) + if p.param_type is Slice {
            indent + "let __ffi_"@ + p.name@ + ": Vec<ffier::FfierBytes> = "@ + p.name@
                + ".iter().map(|s| unsafe { ffier::FfierBytes::from_str(s) }).collect();\n"@
        } else {
            Seq::empty()
        }
    }
}

/// Appends the slice bindings of the parameters.
pub fn emit_slice_pre_bindings(out: &mut String, params: &[ClientParam], indent: &str)
    ensures
        final(out)@ == old(out)@ + slice_bindings_text(params@, indent@),
{
    let ghost o0 = out@;
    let mut i: usize = 0;
    assert(params@.take(0) =~= Seq::<ClientParam>::empty());
    while i < params.len()
        invariant
            i <= params@.len(),
            out@ == o0 + slice_bindings_text(params@.take(i as int), indent@),
        decreases params@.len() - i,
    {
        let p = &params[i];
        match &p.param_type {
            ClientParamType::Slice => {
                push_str(out, indent);
                push_str(out, "let __ffi_");
                push_str(out, p.name.as_str());
                push_str(out, ": Vec<ffier::FfierBytes> = ");
                push_str(out, p.name.as_str());
                push_str(out, ".iter().map(|s| unsafe { ffier::FfierBytes::from_str(s) }).collect();\n");
            },
            _ => {},
        }
        i = i + 1;
        assert(params@.take(i as int).drop_last() =~= params@.take(i - 1));
        assert(out@ =~= o0 + slice_bindings_text(params@.take(i as int), indent@));
    }
    assert(params@.take(params@.len() as int) =~= params@);
}

// ---------------------------------------------------------------------------
// Wrapper signatures
// ---------------------------------------------------------------------------

/// `'a` for each lifetime.
pub open spec fn ticked(lts: Seq<Seq<char>>) -> Seq<Seq<char>> {
    lts.map_values(|l: Seq<char>| "'"@ + l)
}

/// The signature of a parameter of a safe wrapper.
pub open spec fn param_sig(p: ClientParam) -> Seq<char> {
    match p.param_type {
        ClientParamType::Regular { rust_type, .. } => p.name@ + ": "@ + rust_type@,
        ClientParamType::Slice => p.name@ + ": &[&str]"@,
        ClientParamType::ImplTrait { trait_name, type_args } => if type_args@.len() == 0 {
            p.name@ + ": impl "@ + trait_name@
        } else {
            p.name@ + ": impl "@ + trait_name@ + "<"@ + join_spec(ticked(strings_view(type_args@)), ", "@) + ">"@
        },
    }
}

fn ticked_list(lts: &Vec<String>) -> (r: Vec<String>)
    ensures
        strings_view(r@) == ticked(strings_view(lts@)),
{
    let mut out: Vec<String> = Vec::new();
    let mut i: usize = 0;
    while i < lts.len()
        invariant
            i <= lts@.len(),
            strings_view(out@) == ticked(strings_view(lts@)).take(i as int),
        decreases lts@.len() - i,
    {
        let ghost before = strings_view(out@);
        let t = concat("'", lts[i].as_str());
        assert(t@ =~= "'"@ + lts@[i as int]@);
        assert(strings_view(lts@)[i as int] == lts@[i as int]@);
        assert(ticked(strings_view(lts@))[i as int] == t@);
        let ghost tv = t@;
        out.push(t);
        assert(strings_view(out@) =~= before.push(tv));
        i = i + 1;
        assert(strings_view(out@) =~= ticked(strings_view(lts@)).take(i as int));
    }
    assert(ticked(strings_view(lts@)).take(lts@.len() as int) =~= ticked(strings_view(lts@)));
    out
}

/// Formats the signature of a parameter of a safe wrapper.
pub fn format_param_sig(p: &ClientParam) -> (r: String)
    ensures
        r@ == param_sig(*p),
{
    let name = p.name.as_str();
    match &p.param_type {
        ClientParamType::Regular { rust_type, .. } => joined(name, ": ", rust_type.as_str()),
        ClientParamType::Slice => concat(name, ": &[&str]"),
        ClientParamType::ImplTrait { trait_name, type_args } => {
            let mut s = joined(name, ": impl ", trait_name.as_str());
            if type_args.len() > 0 {
                let ts = ticked_list(type_args);
                let args = join_strings(ts.as_slice(), ", ");
                push_str(&mut s, "<");
                push_str(&mut s, args.as_str());
                push_str(&mut s, ">");
            }
            s
        },
    }
}

/// The receiver of a method signature.
pub open spec fn receiver_text(r: Receiver) -> Seq<char> {
    match r {
        Receiver::NoSelf => Seq::empty(),
        Receiver::Ref => "&self, "@,
        Receiver::Mut => "&mut self, "@,
        Receiver::Value => "self, "@,
    }
}

pub(crate) fn receiver_str(r: Receiver) -> (s: &'static str)
    ensures
        s@ == receiver_text(r),
{
    match r {
        Receiver::NoSelf => {
            let s = "";
            proof {
                reveal_strlit("");
            }
            assert(s@ =~= Seq::<char>::empty());
            s
        },
        Receiver::Ref => "&self, ",
        Receiver::Mut => "&mut self, ",
        Receiver::Value => "self, ",
    }
}

/// The signatures of the parameters.
pub open spec fn param_sigs(ps: Seq<ClientParam>) -> Seq<Seq<char>> {
    ps.map_values(|p: ClientParam| param_sig(p))
}

pub(crate) fn param_sigs_of(params: &[ClientParam]) -> (r: Vec<String>)
    ensures
        strings_view(r@) == param_sigs(params@),
{
    let mut out: Vec<String> = Vec::new();
    let mut i: usize = 0;
    while i < params.len()
        invariant
            i <= params@.len(),
            strings_view(out@) == param_sigs(params@).take(i as int),
        decreases params@.len() - i,
    {
        let ghost before = strings_view(out@);
        let s = format_param_sig(&params[i]);
        assert(param_sigs(params@)[i as int] == s@);
        let ghost sv = s@;
        out.push(s);
        assert(strings_view(out@) =~= before.push(sv));
        i = i + 1;
        assert(strings_view(out@) =~= param_sigs(params@).take(i as int));
    }
    assert(param_sigs(params@).take(params@.len() as int) =~= param_sigs(params@));
    out
}

/// The signature of a trait method in the client:
/// `fn name(receiver params) -> ret` (no arrow for a void return).
pub open spec fn trait_method_sig(name: Seq<char>, receiver: Receiver, params: Seq<ClientParam>, ret_type: Option<Seq<char>>) -> Seq<char> {
    "fn "@ + name + "("@ + receiver_text(receiver) + join_spec(param_sigs(params), ", "@) + ")"@ + match ret_type {
        Some(t) => " -> "@ + t,
        None => Seq::empty(),
    }
}

/// Builds the signature of a trait method; `ret_type` is the Rust type of
/// a non-void return.
pub fn build_trait_method_sig(name: &str, receiver: Receiver, params: &[ClientParam], ret_type: Option<&str>) -> (r: String)
    ensures
        r@ == trait_method_sig(name@, receiver, params@, match ret_type {
            Some(t) => Some(t@),
            None => None,
        }),
{
    let sigs = param_sigs_of(params);
    let list = join_strings(sigs.as_slice(), ", ");
    let mut s = owned("fn ");
    push_str(&mut s, name);
    push_str(&mut s, "(");
    push_str(&mut s, receiver_str(receiver));
    push_str(&mut s, list.as_str());
    push_str(&mut s, ")");
    let ghost before = s@;
    match ret_type {
        Some(t) => {
            push_str(&mut s, " -> ");
            push_str(&mut s, t);
        },
        None => {},
    }
    assert(s@ =~= trait_method_sig(name@, receiver, params@, match ret_type {
        Some(t) => Some(t@),
        None => None,
    }));
    s
}

/// A doc line escaped for a `#[doc = "..."]` attribute: `\` and `"` are
/// preceded by `\`.
pub open spec fn escape_doc(s: Seq<char>) -> Seq<char>
    decreases s.len(),
{
    if s.len() == 0 {
        Seq::empty()
    } else {
        escape_doc(s.drop_last()) + if s.last() == '\\' || s.last() == '"' {
            seq!['\\', s.last()]
        } else {
            seq![s.last()]
        }
    }
}

/// Escapes a doc line for a `#[doc = "..."]` attribute.
pub fn escape_doc_line(s: &str) -> (r: String)
    ensures
        r@ == escape_doc(s@),
{
    let v = chars_of(s);
    let mut out = String::new();
    let mut i: usize = 0;
    while i < v.len()
        invariant
            v@ == s@,
            i <= v@.len(),
            out@ == escape_doc(v@.take(i as int)),
        decreases v@.len() - i,
    {
        let c = v[i];
        if c == '\\' || c == '"' {
            push_char(&mut out, '\\');
        }
        push_char(&mut out, c);
        i = i + 1;
        assert(v@.take(i as int).drop_last() =~= v@.take(i - 1));
        assert(out@ =~= escape_doc(v@.take(i as int)));
    }
    assert(v@.take(v@.len() as int) =~= v@);
    out
}

/// The lifetime parameters of a method: `<'a, 'b>`, nothing for none.
pub open spec fn method_lifetimes_text(lts: Seq<Seq<char>>) -> Seq<char> {
    if lts.len() == 0 {
        Seq::empty()
    } else {
        "<"@ + join_spec(ticked(lts), ", "@) + ">"@
    }
}

/// Formats the lifetime parameters of a method.
pub fn method_lifetimes(lts: &Vec<String>) -> (r: String)
    ensures
        r@ == method_lifetimes_text(strings_view(lts@)),
{
    if lts.len() == 0 {
        return String::new();
    }
    let ts = ticked_list(lts);
    let list = join_strings(ts.as_slice(), ", ");
    joined("<", list.as_str(), ">")
}

} // verus!
