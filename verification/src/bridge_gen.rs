//! The `extern "C"` bridge of an exported type: for each method a C
//! function that checks the handle's type tag, converts the parameters,
//! dispatches `impl Trait` parameters by type or through the trait's
//! vtable, calls the method and hands back its result; and the function
//! that destroys a handle.

use vstd::prelude::*;
use crate::convert::MetaReceiver;
use crate::dispatch::{
    arg_known, branch_factor, branches, goes_through_vtable, plan_dispatch, plan_ok, any_auto, first_missing_vtable, DispatchError,
    ImplTraitArg, ImplementableEntry, TraitDispatchInfo, TraitMap, TraitVariant,
};
use crate::naming::{camel_to_snake, camel_to_snake_spec};
use crate::text::{join_spec, join_strings, owned, push_str, strings_view};

verus! {

// ---------------------------------------------------------------------------
// The metadata of an exported type
// ---------------------------------------------------------------------------

/// A parameter of an exported method, as the bridge sees it.
pub enum BridgeParam {
    /// A value passed as the C representation of its bridge type.
    Regular { name: String, bridge_type: String },
    /// A `&[&str]`, passed as a pointer and a length.
    StrSlice { name: String },
    /// An `impl Trait`, passed as a handle.
    ImplTrait(ImplTraitArg),
}

/// What an exported method returns, with bridge types.
pub enum BridgeReturn {
    Void,
    Value { bridge_type: String },
    /// A `Result`, with its ok type unless it is `()` or a suppressed `Self`.
    Result { ok: Option<String> },
}

/// An exported method.
pub struct BridgeMethod {
    /// The Rust name of the method.
    pub name: String,
    /// Its C name without the library prefix.
    pub ffi_name: String,
    pub receiver: MetaReceiver,
    pub is_builder: bool,
    pub params: Vec<BridgeParam>,
    pub ret: BridgeReturn,
}

/// An exported type.
pub struct ExportableMeta {
    pub struct_name: String,
    /// The type's path, as text.
    pub struct_path: String,
    /// The library's C prefix.
    pub prefix: String,
    pub methods: Vec<BridgeMethod>,
}

// ---------------------------------------------------------------------------
// Signatures
// ---------------------------------------------------------------------------

/// The name of a parameter.
pub open spec fn param_name(p: BridgeParam) -> Seq<char> {
    match p {
        BridgeParam::Regular { name, .. } => name@,
        BridgeParam::StrSlice { name } => name@,
        BridgeParam::ImplTrait(a) => a.name@,
    }
}

/// `<T as ffier::FfiType>::CRepr`.
pub open spec fn c_repr(t: Seq<char>) -> Seq<char> {
    "<"@ + t + " as ffier::FfiType>::CRepr"@
}

/// The C parameters of a parameter, as `name: type`.
pub open spec fn param_sig_items(p: BridgeParam) -> Seq<Seq<char>> {
    match p {
        BridgeParam::Regular { name, bridge_type } => seq![name@ + ": "@ + c_repr(bridge_type@)],
        BridgeParam::StrSlice { name } => seq![name@ + ": *const ffier::FfierBytes"@, name@ + "_len: usize"@],
        BridgeParam::ImplTrait(a) => seq![a.name@ + ": *mut core::ffi::c_void"@],
    }
}

/// The C parameters of a list of parameters.
pub open spec fn params_sig_items(ps: Seq<BridgeParam>) -> Seq<Seq<char>>
    decreases ps.len(),
{
    if ps.len() == 0 {
        Seq::empty()
    } else {
        params_sig_items(ps.drop_last()) + param_sig_items(ps.last())
    }
}

/// The handle is passed through a pointer: a builder that takes `self`
/// gets the new handle written back.
pub open spec fn handle_indirect(m: BridgeMethod) -> bool {
    m.is_builder && m.receiver == MetaReceiver::Value
}

/// All the C parameters of a method's function: the handle, the
/// parameters, and the out-parameter of a `Result`'s ok value.
pub open spec fn sig_items(m: BridgeMethod) -> Seq<Seq<char>> {
    let handle = if m.receiver == MetaReceiver::NoSelf {
        Seq::<Seq<char>>::empty()
    } else if handle_indirect(m) {
        seq!["handle: *mut *mut core::ffi::c_void"@]
    } else {
        seq!["handle: *mut core::ffi::c_void"@]
    };
    let result = match m.ret {
        BridgeReturn::Result { ok: Some(t) } => seq!["result: *mut "@ + c_repr(t@)],
        _ => Seq::<Seq<char>>::empty(),
    };
    handle + params_sig_items(m.params@) + result
}

/// The return type of a method's function.
pub open spec fn sig_ret(m: BridgeMethod) -> Seq<char> {
    match m.ret {
        BridgeReturn::Void => Seq::empty(),
        BridgeReturn::Value { bridge_type } => " -> "@ + c_repr(bridge_type@),
        BridgeReturn::Result { .. } => " -> ffier::FfierError"@,
    }
}

/// The C name of a method's function.
pub open spec fn fn_name(e: ExportableMeta, m: BridgeMethod) -> Seq<char> {
    e.prefix@ + "_"@ + m.ffi_name@
}

// ---------------------------------------------------------------------------
// Parameters and dispatch
// ---------------------------------------------------------------------------

/// The `impl Trait` parameters, in order.
pub open spec fn impl_args(ps: Seq<BridgeParam>) -> Seq<ImplTraitArg>
    decreases ps.len(),
{
    if ps.len() == 0 {
        Seq::empty()
    } else {
        match ps.last() {
            BridgeParam::ImplTrait(a) => impl_args(ps.drop_last()).push(a),
            _ => impl_args(ps.drop_last()),
        }
    }
}

/// The argument passed to the method for a parameter.
pub open spec fn arg_text(p: BridgeParam) -> Seq<char> {
    match p {
        BridgeParam::Regular { name, bridge_type } => "<"@ + bridge_type@ + " as ffier::FfiType>::from_c("@ + name@ + ")"@,
        BridgeParam::StrSlice { name } => "&__"@ + name@ + "_vec"@,
        BridgeParam::ImplTrait(a) => a.name@,
    }
}

/// The arguments passed to the method.
pub open spec fn args_items(ps: Seq<BridgeParam>) -> Seq<Seq<char>> {
    ps.map_values(|p: BridgeParam| arg_text(p))
}

/// The binding that turns a `&[&str]` parameter back into a vector.
pub open spec fn slice_binding(name: Seq<char>) -> Seq<char> {
    "    let __"@ + name + "_vec = { let __slice = unsafe { core::slice::from_raw_parts("@ + name + ", "@ + name
        + "_len) }; let __strs: Vec<&str> = __slice.iter().map(|b| unsafe { core::str::from_utf8_unchecked(core::slice::from_raw_parts(b.data, b.len)) }).collect(); __strs };\n"@
}

/// The bindings of the `&[&str]` parameters, in order.
pub open spec fn slice_bindings(ps: Seq<BridgeParam>) -> Seq<char>
    decreases ps.len(),
{
    if ps.len() == 0 {
        Seq::empty()
    } else {
        slice_bindings(ps.drop_last()) + match ps.last() {
            BridgeParam::StrSlice { name } => slice_binding(name@),
            _ => Seq::empty(),
        }
    }
}

/// The call when the handle is wrong: the function, what was expected,
/// the accepted types, and the tag found.
pub open spec fn dispatch_panic(ffi: Seq<char>, expected: Seq<char>, accepted: Seq<char>) -> Seq<char> {
    "__ffier_dispatch_panic(\""@ + ffi + "\", "@ + expected + ", "@ + accepted + ", __type_tag);\n"@
}

/// `(*Box::from_raw(x as *mut ffier::FfierHandleBox<T>)).value`.
pub open spec fn unbox(x: Seq<char>, t: Seq<char>) -> Seq<char> {
    "(*Box::from_raw("@ + x + " as *mut ffier::FfierHandleBox<"@ + t + ">)).value"@
}

/// The branches that match a handle against each of the trait's types,
/// taking the value out and going on with `inner`.
pub open spec fn concrete_branches(n: Seq<char>, vs: Seq<TraitVariant>, inner: Seq<char>) -> Seq<char>
    decreases vs.len(),
{
    if vs.len() == 0 {
        Seq::empty()
    } else {
        let t = vs.last().bridge_type@;
        concrete_branches(n, vs.drop_last(), inner) + "if __type_tag == <"@ + t + " as ffier::FfiHandle>::TYPE_TAG {\n"@ + "let "@
            + n + " = unsafe { "@ + unbox(n, t) + " };\n"@ + inner + "\n} else "@
    }
}

/// The block that dispatches an `impl Trait` parameter by type around
/// `inner`, refusing a handle of any other type.
pub open spec fn concrete_block(ffi: Seq<char>, a: ImplTraitArg, vs: Seq<TraitVariant>, inner: Seq<char>) -> Seq<char> {
    "{\n"@ + "let __type_tag = unsafe { ffier::handle_type_tag("@ + a.name@ + ") };\n"@ + concrete_branches(a.name@, vs, inner) + "{\n"@
        + dispatch_panic(ffi, "\"impl "@ + a.trait_name@ + "\""@, "__FFIER_ACCEPTED_"@ + a.trait_name@) + "}\n}"@
}

/// The variants of the trait of an `impl Trait` parameter.
pub open spec fn arg_variants(m: TraitMap, a: ImplTraitArg) -> Seq<TraitVariant> {
    m.entry(a.trait_name@)->0.variants@
}

/// The call wrapped, from the `i`-th `impl Trait` parameter on, in the
/// dispatch by type of each parameter matched by type (the first one
/// outermost).
pub open spec fn wrap_from(ffi: Seq<char>, args: Seq<ImplTraitArg>, m: TraitMap, max_dispatch: u64, call: Seq<char>, i: int) -> Seq<char>
    decreases args.len() - i,
{
    if i >= args.len() || i < 0 {
        call
    } else {
        let inner = wrap_from(ffi, args, m, max_dispatch, call, i + 1);
        if arg_known(m, args[i]) && !goes_through_vtable(args, m, max_dispatch, i) {
            concrete_block(ffi, args[i], arg_variants(m, args[i]), inner)
        } else {
            inner
        }
    }
}

/// The trait named in a `dyn` type: the implementable trait's path, else
/// its name.
pub open spec fn dyn_trait(m: TraitMap, imps: Seq<ImplementableEntry>, a: ImplTraitArg) -> Seq<char> {
    match m.entry(a.trait_name@)->0.implementable {
        Some(k) => imps[k as int].trait_path@,
        None => a.trait_name@,
    }
}

/// The branches that box a handle's value as a `dyn` trait object.
pub open spec fn vtable_branches(n: Seq<char>, d: Seq<char>, vs: Seq<TraitVariant>) -> Seq<char>
    decreases vs.len(),
{
    if vs.len() == 0 {
        Seq::empty()
    } else {
        let t = vs.last().bridge_type@;
        vtable_branches(n, d, vs.drop_last()) + "if __type_tag == <"@ + t + " as ffier::FfiHandle>::TYPE_TAG {\n"@
            + "let __val = unsafe { "@ + unbox(n, t) + " };\n"@ + "ffier::FfierBoxDyn(Box::new(__val) as Box<dyn "@ + d + ">)\n"@
            + "} else "@
    }
}

/// The binding that turns an `impl Trait` parameter going through the
/// vtable into a boxed trait object.
pub open spec fn vtable_binding(ffi: Seq<char>, a: ImplTraitArg, d: Seq<char>, vs: Seq<TraitVariant>) -> Seq<char> {
    "    let "@ + a.name@ + ": ffier::FfierBoxDyn<dyn "@ + d + "> = {\n"@ + "let __type_tag = unsafe { ffier::handle_type_tag("@
        + a.name@ + ") };\n"@ + vtable_branches(a.name@, d, vs) + "{\n"@ + dispatch_panic(
        ffi,
        "\"impl "@ + a.trait_name@ + "\""@,
        "__FFIER_ACCEPTED_"@ + a.trait_name@,
    ) + "}\n};\n"@
}

/// The bindings of the first `n` `impl Trait` parameters that go through
/// the vtable.
pub open spec fn vtable_bindings(
    ffi: Seq<char>,
    args: Seq<ImplTraitArg>,
    m: TraitMap,
    imps: Seq<ImplementableEntry>,
    max_dispatch: u64,
    n: int,
) -> Seq<char>
    decreases n,
{
    if n <= 0 || n > args.len() {
        Seq::empty()
    } else {
        let i = n - 1;
        vtable_bindings(ffi, args, m, imps, max_dispatch, i) + if arg_known(m, args[i]) && goes_through_vtable(args, m, max_dispatch, i) {
            vtable_binding(ffi, args[i], dyn_trait(m, imps, args[i]), arg_variants(m, args[i]))
        } else {
            Seq::empty()
        }
    }
}

// ---------------------------------------------------------------------------
// Methods
// ---------------------------------------------------------------------------

/// The check that a handle holds the exported type, and the binding of the
/// receiver (`obj`), by value, by `&mut` or by `&`.
pub open spec fn obj_binding(e: ExportableMeta, m: BridgeMethod) -> Seq<char> {
    let path = e.struct_path@;
    let deref = if handle_indirect(m) {
        "    let handle = unsafe { *handle };\n"@
    } else {
        Seq::empty()
    };
    let cast = match m.receiver {
        MetaReceiver::Value => unbox("handle"@, path),
        MetaReceiver::Mut => "&mut (*(handle as *mut ffier::FfierHandleBox<"@ + path + ">)).value"@,
        _ => "&(*(handle as *const ffier::FfierHandleBox<"@ + path + ">)).value"@,
    };
    deref + handle_check(path, fn_name(e, m)) + "    let obj = unsafe { "@ + cast + " };\n"@
}

/// The check that the handle holds a value of type `path`, panicking with
/// the function's name otherwise.
pub open spec fn handle_check(path: Seq<char>, ffi: Seq<char>) -> Seq<char> {
    "    let __actual = unsafe { ffier::handle_type_tag(handle) };\n"@ + "    let __expected = <"@ + path + " as ffier::FfiHandle>::TYPE_TAG;\n"@
        + "    if __actual != __expected {\n"@ + "        __ffier_dispatch_panic(\""@ + ffi + "\", <"@ + path
        + " as ffier::FfiHandle>::C_HANDLE_NAME, \"\", __actual);\n"@ + "    }\n"@
}

/// The function of a method with a receiver checks the handle's type
/// before it touches the value: the check, with the function's own name and
/// the exported type, comes just before `obj` is bound.
pub proof fn lemma_method_handle_checked(
    e: ExportableMeta,
    m: BridgeMethod,
    tm: TraitMap,
    imps: Seq<ImplementableEntry>,
    max_dispatch: u64,
) -> (parts: (Seq<char>, Seq<char>))
    requires
        m.receiver != MetaReceiver::NoSelf,
    ensures
        method_fn_text(e, m, tm, imps, max_dispatch) == parts.0 + handle_check(e.struct_path@, fn_name(e, m)) + "    let obj = unsafe { "@
            + parts.1,
{
    let path = e.struct_path@;
    let ffi = fn_name(e, m);
    let args = impl_args(m.params@);
    let handle_ptr = if handle_indirect(m) && !(m.ret is Value) {
        "    let handle_ptr = handle;\n"@
    } else {
        Seq::empty()
    };
    let deref = if handle_indirect(m) {
        "    let handle = unsafe { *handle };\n"@
    } else {
        Seq::empty()
    };
    let cast = match m.receiver {
        MetaReceiver::Value => unbox("handle"@, path),
        MetaReceiver::Mut => "&mut (*(handle as *mut ffier::FfierHandleBox<"@ + path + ">)).value"@,
        _ => "&(*(handle as *const ffier::FfierHandleBox<"@ + path + ">)).value"@,
    };
    let call = wrap_from(ffi, args, tm, max_dispatch, base_call(e, m), 0);
    let q = "#[unsafe(no_mangle)]\n"@ + "pub unsafe extern \"C\" fn "@ + ffi + "("@ + join_spec(sig_items(m), ", "@) + ")"@ + sig_ret(m) + " {\n"@
        + handle_ptr;
    let v = vtable_bindings(ffi, args, tm, imps, max_dispatch, args.len() as int);
    let sb = slice_bindings(m.params@);
    let rp = return_part(e, m, call);
    let check = handle_check(path, ffi);
    let l = "    let obj = unsafe { "@;
    let k2 = " };\n"@;
    assert(obj_binding(e, m) == deref + check + l + cast + k2);
    assert(method_fn_text(e, m, tm, imps, max_dispatch) == q + obj_binding(e, m) + v + sb + rp + "}\n\n"@);
    lemma_regroup(q, deref, check, l, cast, k2, v, sb, rp, "}\n\n"@);
    (q + deref, cast + k2 + v + sb + rp + "}\n\n"@)
}

proof fn lemma_regroup(
    q: Seq<char>,
    d: Seq<char>,
    c: Seq<char>,
    l: Seq<char>,
    k1: Seq<char>,
    k2: Seq<char>,
    v: Seq<char>,
    s: Seq<char>,
    rp: Seq<char>,
    end: Seq<char>,
)
    ensures
        q + (d + c + l + k1 + k2) + v + s + rp + end == (q + d) + c + l + (k1 + k2 + v + s + rp + end),
{
    assert(q + (d + c + l + k1 + k2) + v + s + rp + end =~= (q + d) + c + l + (k1 + k2 + v + s + rp + end));
}

/// The arm of a builder's `Result` that writes the new value back into the
/// caller's handle slot.
pub open spec fn write_back_arm(path: Seq<char>) -> Seq<char> {
    "        Ok(new_self) => {\n"@ + "            unsafe { *handle_ptr = <"@ + path + " as ffier::FfiType>::into_c(new_self) };\n"@
        + "            ffier::FfierError::ok()\n"@ + "        }\n"@
}

/// A builder that takes `self` and returns `Result<Self, E>` keeps the
/// caller's handle slot (`handle_ptr`), and on success writes the new value
/// into it before answering success; the only other outcome is the error.
pub proof fn lemma_builder_result_writes_back(
    e: ExportableMeta,
    m: BridgeMethod,
    tm: TraitMap,
    imps: Seq<ImplementableEntry>,
    max_dispatch: u64,
) -> (parts: (Seq<char>, Seq<char>))
    requires
        m.is_builder,
        m.receiver == MetaReceiver::Value,
        m.ret == (BridgeReturn::Result { ok: None }),
    ensures
        method_fn_text(e, m, tm, imps, max_dispatch) == parts.0 + "    let handle_ptr = handle;\n"@ + parts.1 + write_back_arm(e.struct_path@)
            + "        Err(e) => ffier::FfierError::from_err(e),\n"@ + "    }\n"@ + "}\n\n"@,
{
    let ffi = fn_name(e, m);
    let args = impl_args(m.params@);
    let call = wrap_from(ffi, args, tm, max_dispatch, base_call(e, m), 0);
    let q = "#[unsafe(no_mangle)]\n"@ + "pub unsafe extern \"C\" fn "@ + ffi + "("@ + join_spec(sig_items(m), ", "@) + ")"@ + sig_ret(m) + " {\n"@;
    let hp = "    let handle_ptr = handle;\n"@;
    let obj = obj_binding(e, m);
    let v = vtable_bindings(ffi, args, tm, imps, max_dispatch, args.len() as int);
    let sb = slice_bindings(m.params@);
    let open = "    match "@ + call + " {\n"@;
    let arm = write_back_arm(e.struct_path@);
    let err = "        Err(e) => ffier::FfierError::from_err(e),\n"@;
    let close = "    }\n"@;
    let end = "}\n\n"@;
    assert(return_part(e, m, call) =~= open + arm + err + close);
    assert(method_fn_text(e, m, tm, imps, max_dispatch) == q + hp + obj + v + sb + return_part(e, m, call) + end);
    lemma_write_back_regroup(q, hp, obj, v, sb, open, arm, err, close, end);
    (q, obj + v + sb + open)
}

proof fn lemma_write_back_regroup(
    q: Seq<char>,
    hp: Seq<char>,
    obj: Seq<char>,
    v: Seq<char>,
    sb: Seq<char>,
    open: Seq<char>,
    arm: Seq<char>,
    err: Seq<char>,
    close: Seq<char>,
    end: Seq<char>,
)
    ensures
        q + hp + obj + v + sb + (open + arm + err + close) + end == q + hp + (obj + v + sb + open) + arm + err + close + end,
{
    assert(q + hp + obj + v + sb + (open + arm + err + close) + end =~= q + hp + (obj + v + sb + open) + arm + err + close + end);
}

/// The destroy function checks the handle's type before it frees it.
pub proof fn lemma_destroy_handle_checked(e: ExportableMeta) -> (parts: (Seq<char>, Seq<char>))
    ensures
        destroy_fn_text(e) == parts.0 + "        let __actual = unsafe { ffier::handle_type_tag(handle) };\n"@ + "        let __expected = <"@
            + e.struct_path@ + " as ffier::FfiHandle>::TYPE_TAG;\n"@ + "        if __actual != __expected {\n"@ + parts.1
            + "        drop(unsafe { Box::from_raw(handle as *mut ffier::FfierHandleBox<"@ + e.struct_path@ + ">) });\n"@ + "    }\n"@ + "}\n"@,
{
    let path = e.struct_path@;
    let name = e.prefix@ + "_"@ + camel_to_snake_spec(e.struct_name@) + "_destroy"@;
    let dpre = "#[unsafe(no_mangle)]\n"@ + "pub unsafe extern \"C\" fn "@ + name + "(handle: *mut core::ffi::c_void) {\n"@
        + "    if !handle.is_null() {\n"@;
    let dpost = "            __ffier_dispatch_panic(\""@ + name + "\", <"@ + path + " as ffier::FfiHandle>::C_HANDLE_NAME, \"\", __actual);\n"@
        + "        }\n"@;
    assert(destroy_fn_text(e) =~= dpre + "        let __actual = unsafe { ffier::handle_type_tag(handle) };\n"@ + "        let __expected = <"@ + path
        + " as ffier::FfiHandle>::TYPE_TAG;\n"@ + "        if __actual != __expected {\n"@ + dpost
        + "        drop(unsafe { Box::from_raw(handle as *mut ffier::FfierHandleBox<"@ + path + ">) });\n"@ + "    }\n"@ + "}\n"@);
    (dpre, dpost)
}

/// The call of the method.
pub open spec fn base_call(e: ExportableMeta, m: BridgeMethod) -> Seq<char> {
    let args = join_spec(args_items(m.params@), ", "@);
    if m.receiver == MetaReceiver::NoSelf {
        "<"@ + e.struct_path@ + ">::"@ + m.name@ + "("@ + args + ")"@
    } else {
        "obj."@ + m.name@ + "("@ + args + ")"@
    }
}

/// How the function hands back what the method returns, given the call.
pub open spec fn return_part(e: ExportableMeta, m: BridgeMethod, call: Seq<char>) -> Seq<char> {
    result_part(e.struct_path@, m, call)
}

/// How a function hands back what the call returns, with `path` the type
/// of a handle written back by a builder.
pub open spec fn result_part(path: Seq<char>, m: BridgeMethod, call: Seq<char>) -> Seq<char> {
    match m.ret {
        BridgeReturn::Void => if handle_indirect(m) {
            "    let result = "@ + call + ";\n"@ + "    unsafe { *handle_ptr = <"@ + path + " as ffier::FfiType>::into_c(result) };\n"@
        } else {
            "    "@ + call + ";\n"@
        },
        BridgeReturn::Value { bridge_type } => "    let result = "@ + call + ";\n"@ + "    <"@ + bridge_type@
            + " as ffier::FfiType>::into_c(result)\n"@,
        BridgeReturn::Result { ok } => {
            let ok_branch = match ok {
                Some(t) => "        Ok(ok_val) => {\n"@ + "            unsafe { result.write(<"@ + t@
                    + " as ffier::FfiType>::into_c(ok_val)) };\n"@ + "            ffier::FfierError::ok()\n"@ + "        }\n"@,
                None => if handle_indirect(m) {
                    "        Ok(new_self) => {\n"@ + "            unsafe { *handle_ptr = <"@ + path
                        + " as ffier::FfiType>::into_c(new_self) };\n"@ + "            ffier::FfierError::ok()\n"@ + "        }\n"@
                } else {
                    "        Ok(_) => ffier::FfierError::ok(),\n"@
                },
            };
            "    match "@ + call + " {\n"@ + ok_branch + "        Err(e) => ffier::FfierError::from_err(e),\n"@ + "    }\n"@
        },
    }
}

/// The C function of a method whose `impl Trait` parameters are dispatched
/// as planned.
pub open spec fn method_fn_text(e: ExportableMeta, m: BridgeMethod, tm: TraitMap, imps: Seq<ImplementableEntry>, max_dispatch: u64) -> Seq<
    char,
> {
    let ffi = fn_name(e, m);
    let args = impl_args(m.params@);
    let handle_ptr = if handle_indirect(m) && !(m.ret is Value) {
        "    let handle_ptr = handle;\n"@
    } else {
        Seq::empty()
    };
    let obj = if m.receiver == MetaReceiver::NoSelf {
        Seq::empty()
    } else {
        obj_binding(e, m)
    };
    let call = wrap_from(ffi, args, tm, max_dispatch, base_call(e, m), 0);
    "#[unsafe(no_mangle)]\n"@ + "pub unsafe extern \"C\" fn "@ + ffi + "("@ + join_spec(sig_items(m), ", "@) + ")"@ + sig_ret(m) + " {\n"@
        + handle_ptr + obj + vtable_bindings(ffi, args, tm, imps, max_dispatch, args.len() as int) + slice_bindings(m.params@)
        + return_part(e, m, call) + "}\n\n"@
}

/// The statement that stores a builder's new value into the caller's
/// handle slot.
pub open spec fn store_new_handle(path: Seq<char>) -> Seq<char> {
    "    unsafe { *handle_ptr = <"@ + path + " as ffier::FfiType>::into_c(result) };\n"@
}

/// A builder that takes `self` and returns `Self` keeps the caller's handle
/// slot (`handle_ptr`) and, as the last thing it does, stores the value the
/// call returned into it.
pub proof fn lemma_builder_void_writes_back(
    e: ExportableMeta,
    m: BridgeMethod,
    tm: TraitMap,
    imps: Seq<ImplementableEntry>,
    max_dispatch: u64,
) -> (parts: (Seq<char>, Seq<char>))
    requires
        m.is_builder,
        m.receiver == MetaReceiver::Value,
        m.ret == BridgeReturn::Void,
    ensures
        method_fn_text(e, m, tm, imps, max_dispatch) == parts.0 + "    let handle_ptr = handle;\n"@ + parts.1 + "    let result = "@
            + wrap_from(fn_name(e, m), impl_args(m.params@), tm, max_dispatch, base_call(e, m), 0) + ";\n"@ + store_new_handle(e.struct_path@)
            + "}\n\n"@,
{
    let ffi = fn_name(e, m);
    let args = impl_args(m.params@);
    let call = wrap_from(ffi, args, tm, max_dispatch, base_call(e, m), 0);
    let q = "#[unsafe(no_mangle)]\n"@ + "pub unsafe extern \"C\" fn "@ + ffi + "("@ + join_spec(sig_items(m), ", "@) + ")"@ + sig_ret(m) + " {\n"@;
    let hp = "    let handle_ptr = handle;\n"@;
    let obj = obj_binding(e, m);
    let v = vtable_bindings(ffi, args, tm, imps, max_dispatch, args.len() as int);
    let sb = slice_bindings(m.params@);
    let lr = "    let result = "@;
    let semi = ";\n"@;
    let st = store_new_handle(e.struct_path@);
    let end = "}\n\n"@;
    assert(return_part(e, m, call) =~= lr + call + semi + st);
    assert(method_fn_text(e, m, tm, imps, max_dispatch) == q + hp + obj + v + sb + return_part(e, m, call) + end);
    assert(q + hp + obj + v + sb + (lr + call + semi + st) + end =~= q + hp + (obj + v + sb) + lr + call + semi + st + end);
    (q, obj + v + sb)
}

/// The out-parameter write of a `Result`'s ok value, converted to its C
/// type.
pub open spec fn out_param_write(t: Seq<char>) -> Seq<char> {
    "            unsafe { result.write(<"@ + t + " as ffier::FfiType>::into_c(ok_val)) };\n"@
}

/// A function returning `Result<T, E>` with an ok value matches on the
/// call: on `Ok` it writes the converted value to the `result`
/// out-parameter and then answers success, on `Err` it answers the
/// converted error.
pub proof fn lemma_result_ok_written_to_out_param(path: Seq<char>, m: BridgeMethod, call: Seq<char>, t: String)
    requires
        m.ret == (BridgeReturn::Result { ok: Some(t) }),
    ensures
        result_part(path, m, call) == "    match "@ + call + " {\n"@ + "        Ok(ok_val) => {\n"@ + out_param_write(t@)
            + "            ffier::FfierError::ok()\n"@ + "        }\n"@ + "        Err(e) => ffier::FfierError::from_err(e),\n"@ + "    }\n"@,
{
    assert(result_part(path, m, call) =~= "    match "@ + call + " {\n"@ + "        Ok(ok_val) => {\n"@ + out_param_write(t@)
        + "            ffier::FfierError::ok()\n"@ + "        }\n"@ + "        Err(e) => ffier::FfierError::from_err(e),\n"@ + "    }\n"@);
}

/// The function that destroys a handle of the type, refusing a handle of
/// any other type.
pub open spec fn destroy_fn_text(e: ExportableMeta) -> Seq<char> {
    let name = e.prefix@ + "_"@ + camel_to_snake_spec(e.struct_name@) + "_destroy"@;
    let path = e.struct_path@;
    "#[unsafe(no_mangle)]\n"@ + "pub unsafe extern \"C\" fn "@ + name + "(handle: *mut core::ffi::c_void) {\n"@ + "    if !handle.is_null() {\n"@
        + "        let __actual = unsafe { ffier::handle_type_tag(handle) };\n"@ + "        let __expected = <"@ + path
        + " as ffier::FfiHandle>::TYPE_TAG;\n"@ + "        if __actual != __expected {\n"@ + "            __ffier_dispatch_panic(\""@ + name
        + "\", <"@ + path + " as ffier::FfiHandle>::C_HANDLE_NAME, \"\", __actual);\n"@ + "        }\n"@
        + "        drop(unsafe { Box::from_raw(handle as *mut ffier::FfierHandleBox<"@ + path + ">) });\n"@ + "    }\n"@ + "}\n"@
}

/// The dispatch of a method's `impl Trait` parameters is refused.
pub open spec fn plan_refused(m: BridgeMethod, tm: TraitMap, max_dispatch: u64) -> bool {
    let args = impl_args(m.params@);
    (branches(args, tm) > max_dispatch && any_auto(args, tm)) || first_missing_vtable(args, tm) is Some
}

/// The bridge text of the first `n` methods.
pub open spec fn methods_text(e: ExportableMeta, ms: Seq<BridgeMethod>, tm: TraitMap, imps: Seq<ImplementableEntry>, max_dispatch: u64) -> Seq<
    char,
>
    decreases ms.len(),
{
    if ms.len() == 0 {
        Seq::empty()
    } else {
        methods_text(e, ms.drop_last(), tm, imps, max_dispatch) + method_fn_text(e, ms.last(), tm, imps, max_dispatch)
    }
}

/// The bridge of an exported type: the function of each method, then the
/// destroy function.
pub open spec fn exportable_bridge_spec(e: ExportableMeta, tm: TraitMap, imps: Seq<ImplementableEntry>, max_dispatch: u64) -> Seq<char> {
    methods_text(e, e.methods@, tm, imps, max_dispatch) + destroy_fn_text(e)
}

// ---------------------------------------------------------------------------
// Writing the bridge
// ---------------------------------------------------------------------------

fn c_repr_of(t: &str) -> (r: String)
    ensures
        r@ == c_repr(t@),
{
    let mut s = owned("<");
    push_str(&mut s, t);
    push_str(&mut s, " as ffier::FfiType>::CRepr");
    s
}

fn push_item(out: &mut Vec<String>, item: String)
    ensures
        strings_view(final(out)@) == strings_view(old(out)@).push(item@),
{
    let ghost before = out@;
    out.push(item);
    assert(strings_view(out@) =~= strings_view(before).push(item@));
}

fn sig_items_of(m: &BridgeMethod) -> (r: Vec<String>)
    ensures
        strings_view(r@) == sig_items(*m),
{
    let mut out: Vec<String> = Vec::new();
    if m.receiver != MetaReceiver::NoSelf {
        if m.is_builder && m.receiver == MetaReceiver::Value {
            push_item(&mut out, owned("handle: *mut *mut core::ffi::c_void"));
        } else {
            push_item(&mut out, owned("handle: *mut core::ffi::c_void"));
        }
    }
    let ghost head = strings_view(out@);
    let mut i: usize = 0;
    assert(m.params@.take(0) =~= Seq::<BridgeParam>::empty());
    assert(head + params_sig_items(m.params@.take(0)) =~= head);
    while i < m.params.len()
        invariant
            i <= m.params@.len(),
            strings_view(out@) == head + params_sig_items(m.params@.take(i as int)),
        decreases m.params@.len() - i,
    {
        assert(m.params@.take(i + 1).drop_last() =~= m.params@.take(i as int));
        assert(m.params@.take(i + 1).last() == m.params@[i as int]);
        match &m.params[i] {
            BridgeParam::Regular { name, bridge_type } => {
                let mut it = name.clone();
                push_str(&mut it, ": ");
                push_str(&mut it, c_repr_of(bridge_type.as_str()).as_str());
                push_item(&mut out, it);
            },
            BridgeParam::StrSlice { name } => {
                let mut a = name.clone();
                push_str(&mut a, ": *const ffier::FfierBytes");
                push_item(&mut out, a);
                let mut b = name.clone();
                push_str(&mut b, "_len: usize");
                push_item(&mut out, b);
            },
            BridgeParam::ImplTrait(a) => {
                let mut it = a.name.clone();
                push_str(&mut it, ": *mut core::ffi::c_void");
                push_item(&mut out, it);
            },
        }
        i = i + 1;
        assert(strings_view(out@) =~= head + params_sig_items(m.params@.take(i as int)));
    }
    assert(m.params@.take(m.params@.len() as int) =~= m.params@);
    let ghost mid = strings_view(out@);
    match &m.ret {
        BridgeReturn::Result { ok: Some(t) } => {
            let mut it = owned("result: *mut ");
            push_str(&mut it, c_repr_of(t.as_str()).as_str());
            push_item(&mut out, it);
        },
        _ => {},
    }
    assert(strings_view(out@) =~= sig_items(*m));
    out
}

fn arg_text_of(p: &BridgeParam) -> (r: String)
    ensures
        r@ == arg_text(*p),
{
    match p {
        BridgeParam::Regular { name, bridge_type } => {
            let mut s = owned("<");
            push_str(&mut s, bridge_type.as_str());
            push_str(&mut s, " as ffier::FfiType>::from_c(");
            push_str(&mut s, name.as_str());
            push_str(&mut s, ")");
            s
        },
        BridgeParam::StrSlice { name } => {
            let mut s = owned("&__");
            push_str(&mut s, name.as_str());
            push_str(&mut s, "_vec");
            s
        },
        BridgeParam::ImplTrait(a) => a.name.clone(),
    }
}

fn args_of(ps: &Vec<BridgeParam>) -> (r: String)
    ensures
        r@ == join_spec(args_items(ps@), ", "@),
{
    let mut items: Vec<String> = Vec::new();
    let mut i: usize = 0;
    while i < ps.len()
        invariant
            i <= ps@.len(),
            strings_view(items@) == args_items(ps@).take(i as int),
        decreases ps@.len() - i,
    {
        push_item(&mut items, arg_text_of(&ps[i]));
        i = i + 1;
        assert(strings_view(items@) =~= args_items(ps@).take(i as int));
    }
    assert(args_items(ps@).take(ps@.len() as int) =~= args_items(ps@));
    join_strings(items.as_slice(), ", ")
}

fn slice_bindings_of(ps: &Vec<BridgeParam>) -> (r: String)
    ensures
        r@ == slice_bindings(ps@),
{
    let mut out = String::new();
    let mut i: usize = 0;
    assert(ps@.take(0) =~= Seq::<BridgeParam>::empty());
    assert(out@ =~= slice_bindings(ps@.take(0)));
    while i < ps.len()
        invariant
            i <= ps@.len(),
            out@ == slice_bindings(ps@.take(i as int)),
        decreases ps@.len() - i,
    {
        assert(ps@.take(i + 1).drop_last() =~= ps@.take(i as int));
        assert(ps@.take(i + 1).last() == ps@[i as int]);
        match &ps[i] {
            BridgeParam::StrSlice { name } => {
                let n = name.as_str();
                push_str(&mut out, "    let __");
                push_str(&mut out, n);
                push_str(&mut out, "_vec = { let __slice = unsafe { core::slice::from_raw_parts(");
                push_str(&mut out, n);
                push_str(&mut out, ", ");
                push_str(&mut out, n);
                push_str(
                    &mut out,
                    "_len) }; let __strs: Vec<&str> = __slice.iter().map(|b| unsafe { core::str::from_utf8_unchecked(core::slice::from_raw_parts(b.data, b.len)) }).collect(); __strs };\n",
                );
            },
            _ => {},
        }
        i = i + 1;
        assert(out@ =~= slice_bindings(ps@.take(i as int)));
    }
    assert(ps@.take(ps@.len() as int) =~= ps@);
    out
}

fn push_unbox(out: &mut String, x: &str, t: &str)
    ensures
        final(out)@ == old(out)@ + unbox(x@, t@),
{
    push_str(out, "(*Box::from_raw(");
    push_str(out, x);
    push_str(out, " as *mut ffier::FfierHandleBox<");
    push_str(out, t);
    push_str(out, ">)).value");
}

fn push_dispatch_panic(out: &mut String, ffi: &str, a: &ImplTraitArg)
    ensures
        final(out)@ == old(out)@ + dispatch_panic(ffi@, "\"impl "@ + a.trait_name@ + "\""@, "__FFIER_ACCEPTED_"@ + a.trait_name@),
{
    let ghost o0 = out@;
    push_str(out, "__ffier_dispatch_panic(\"");
    push_str(out, ffi);
    push_str(out, "\", ");
    push_str(out, "\"impl ");
    push_str(out, a.trait_name.as_str());
    push_str(out, "\"");
    push_str(out, ", ");
    push_str(out, "__FFIER_ACCEPTED_");
    push_str(out, a.trait_name.as_str());
    push_str(out, ", __type_tag);\n");
    assert(out@ =~= o0 + dispatch_panic(ffi@, "\"impl "@ + a.trait_name@ + "\""@, "__FFIER_ACCEPTED_"@ + a.trait_name@));
}

fn concrete_block_of(ffi: &str, a: &ImplTraitArg, vs: &Vec<TraitVariant>, inner: &str) -> (r: String)
    ensures
        r@ == concrete_block(ffi@, *a, vs@, inner@),
{
    let n = a.name.as_str();
    let mut s = owned("{\n");
    push_str(&mut s, "let __type_tag = unsafe { ffier::handle_type_tag(");
    push_str(&mut s, n);
    push_str(&mut s, ") };\n");
    let ghost s0 = s@;
    let mut i: usize = 0;
    assert(vs@.take(0) =~= Seq::<TraitVariant>::empty());
    assert(s@ =~= s0 + concrete_branches(n@, vs@.take(0), inner@));
    while i < vs.len()
        invariant
            i <= vs@.len(),
            n@ == a.name@,
            s@ == s0 + concrete_branches(n@, vs@.take(i as int), inner@),
        decreases vs@.len() - i,
    {
        assert(vs@.take(i + 1).drop_last() =~= vs@.take(i as int));
        assert(vs@.take(i + 1).last() == vs@[i as int]);
        let t = vs[i].bridge_type.as_str();
        let ghost b = s@;
        push_str(&mut s, "if __type_tag == <");
        push_str(&mut s, t);
        push_str(&mut s, " as ffier::FfiHandle>::TYPE_TAG {\n");
        push_str(&mut s, "let ");
        push_str(&mut s, n);
        push_str(&mut s, " = unsafe { ");
        push_unbox(&mut s, n, t);
        push_str(&mut s, " };\n");
        push_str(&mut s, inner);
        push_str(&mut s, "\n} else ");
        i = i + 1;
        assert(s@ =~= s0 + concrete_branches(n@, vs@.take(i as int), inner@));
    }
    assert(vs@.take(vs@.len() as int) =~= vs@);
    push_str(&mut s, "{\n");
    push_dispatch_panic(&mut s, ffi, a);
    push_str(&mut s, "}\n}");
    s
}

fn variants_of<'m>(tm: &'m TraitMap, a: &ImplTraitArg) -> (r: &'m Vec<TraitVariant>)
    requires
        arg_known(*tm, *a),
    ensures
        r@ == arg_variants(*tm, *a),
{
    let info = tm.get(a.trait_name.as_str()).unwrap();
    &info.variants
}

/// The plan's answer for each `impl Trait` parameter.
pub open spec fn plan_flags(args: Seq<ImplTraitArg>, tm: TraitMap, max_dispatch: u64, v: Seq<Option<bool>>) -> bool {
    &&& v.len() == args.len()
    &&& forall|i: int|
        0 <= i < args.len() ==> (#[trigger] v[i]) == if arg_known(tm, args[i]) {
            Some(goes_through_vtable(args, tm, max_dispatch, i))
        } else {
            None
        }
}

fn wrap_call(ffi: &str, args: &Vec<ImplTraitArg>, tm: &TraitMap, max_dispatch: u64, flags: &Vec<Option<bool>>, call: String) -> (r: String)
    requires
        plan_flags(args@, *tm, max_dispatch, flags@),
    ensures
        r@ == wrap_from(ffi@, args@, *tm, max_dispatch, call@, 0),
{
    let ghost c0 = call@;
    let mut cur = call;
    let mut i: usize = args.len();
    while i > 0
        invariant
            i <= args@.len(),
            plan_flags(args@, *tm, max_dispatch, flags@),
            cur@ == wrap_from(ffi@, args@, *tm, max_dispatch, c0, i as int),
        decreases i,
    {
        i = i - 1;
        match flags[i] {
            Some(false) => {
                let vs = variants_of(tm, &args[i]);
                cur = concrete_block_of(ffi, &args[i], vs, cur.as_str());
            },
            _ => {},
        }
    }
    cur
}

fn dyn_trait_of(tm: &TraitMap, imps: &Vec<ImplementableEntry>, a: &ImplTraitArg) -> (r: String)
    requires
        arg_known(*tm, *a),
        implementables_in(*tm, imps@),
    ensures
        r@ == dyn_trait(*tm, imps@, *a),
{
    let info = tm.get(a.trait_name.as_str()).unwrap();
    proof {
        lemma_entry_in(*tm, a.trait_name@);
        let k = crate::dispatch::entry_index(tm.traits@, a.trait_name@)->0;
        assert(tm.traits@[k] == *info);
    }
    match info.implementable {
        Some(k) => imps[k].trait_path.clone(),
        None => a.trait_name.clone(),
    }
}

/// The implementable metadata that the map points to exists.
pub open spec fn implementables_in(tm: TraitMap, imps: Seq<ImplementableEntry>) -> bool {
    forall|i: int| 0 <= i < tm.traits@.len() ==> ((#[trigger] tm.traits@[i]).implementable matches Some(k) ==> k < imps.len())
}

proof fn lemma_entry_in(tm: TraitMap, t: Seq<char>)
    ensures
        tm.entry(t) is Some ==> (crate::dispatch::entry_index(tm.traits@, t) matches Some(k) && 0 <= k < tm.traits@.len()
            && tm.entry(t) == Some(tm.traits@[k])),
{
    crate::dispatch::lemma_entry_index_found(tm.traits@, t);
}

#[verifier::rlimit(40)]
fn vtable_binding_of(ffi: &str, a: &ImplTraitArg, d: &str, vs: &Vec<TraitVariant>) -> (r: String)
    ensures
        r@ == vtable_binding(ffi@, *a, d@, vs@),
{
    let n = a.name.as_str();
    let mut s = owned("    let ");
    push_str(&mut s, n);
    push_str(&mut s, ": ffier::FfierBoxDyn<dyn ");
    push_str(&mut s, d);
    push_str(&mut s, "> = {\n");
    push_str(&mut s, "let __type_tag = unsafe { ffier::handle_type_tag(");
    push_str(&mut s, n);
    push_str(&mut s, ") };\n");
    let ghost s0 = s@;
    let mut i: usize = 0;
    assert(vs@.take(0) =~= Seq::<TraitVariant>::empty());
    assert(s@ =~= s0 + vtable_branches(n@, d@, vs@.take(0)));
    while i < vs.len()
        invariant
            i <= vs@.len(),
            n@ == a.name@,
            s@ == s0 + vtable_branches(n@, d@, vs@.take(i as int)),
        decreases vs@.len() - i,
    {
        assert(vs@.take(i + 1).drop_last() =~= vs@.take(i as int));
        assert(vs@.take(i + 1).last() == vs@[i as int]);
        let t = vs[i].bridge_type.as_str();
        push_str(&mut s, "if __type_tag == <");
        push_str(&mut s, t);
        push_str(&mut s, " as ffier::FfiHandle>::TYPE_TAG {\n");
        push_str(&mut s, "let __val = unsafe { ");
        push_unbox(&mut s, n, t);
        push_str(&mut s, " };\n");
        push_str(&mut s, "ffier::FfierBoxDyn(Box::new(__val) as Box<dyn ");
        push_str(&mut s, d);
        push_str(&mut s, ">)\n");
        push_str(&mut s, "} else ");
        i = i + 1;
        assert(s@ =~= s0 + vtable_branches(n@, d@, vs@.take(i as int)));
    }
    assert(vs@.take(vs@.len() as int) =~= vs@);
    push_str(&mut s, "{\n");
    push_dispatch_panic(&mut s, ffi, a);
    push_str(&mut s, "}\n};\n");
    s
}

fn vtable_bindings_of(
    ffi: &str,
    args: &Vec<ImplTraitArg>,
    tm: &TraitMap,
    imps: &Vec<ImplementableEntry>,
    max_dispatch: u64,
    flags: &Vec<Option<bool>>,
) -> (r: String)
    requires
        plan_flags(args@, *tm, max_dispatch, flags@),
        implementables_in(*tm, imps@),
    ensures
        r@ == vtable_bindings(ffi@, args@, *tm, imps@, max_dispatch, args@.len() as int),
{
    let mut out = String::new();
    let mut i: usize = 0;
    while i < args.len()
        invariant
            i <= args@.len(),
            plan_flags(args@, *tm, max_dispatch, flags@),
            implementables_in(*tm, imps@),
            out@ == vtable_bindings(ffi@, args@, *tm, imps@, max_dispatch, i as int),
        decreases args@.len() - i,
    {
        match flags[i] {
            Some(true) => {
                let d = dyn_trait_of(tm, imps, &args[i]);
                let vs = variants_of(tm, &args[i]);
                let b = vtable_binding_of(ffi, &args[i], d.as_str(), vs);
                push_str(&mut out, b.as_str());
            },
            _ => {},
        }
        i = i + 1;
    }
    out
}

fn fn_name_of(e: &ExportableMeta, m: &BridgeMethod) -> (r: String)
    ensures
        r@ == fn_name(*e, *m),
{
    let mut s = e.prefix.clone();
    push_str(&mut s, "_");
    push_str(&mut s, m.ffi_name.as_str());
    s
}

fn obj_binding_of(e: &ExportableMeta, m: &BridgeMethod, ffi: &str) -> (r: String)
    requires
        ffi@ == fn_name(*e, *m),
    ensures
        r@ == obj_binding(*e, *m),
{
    let path = e.struct_path.as_str();
    let mut s = String::new();
    if m.is_builder && m.receiver == MetaReceiver::Value {
        push_str(&mut s, "    let handle = unsafe { *handle };\n");
    }
    let ghost d = s@;
    push_str(&mut s, "    let __actual = unsafe { ffier::handle_type_tag(handle) };\n");
    push_str(&mut s, "    let __expected = <");
    push_str(&mut s, path);
    push_str(&mut s, " as ffier::FfiHandle>::TYPE_TAG;\n");
    push_str(&mut s, "    if __actual != __expected {\n");
    push_str(&mut s, "        __ffier_dispatch_panic(\"");
    push_str(&mut s, ffi);
    push_str(&mut s, "\", <");
    push_str(&mut s, path);
    push_str(&mut s, " as ffier::FfiHandle>::C_HANDLE_NAME, \"\", __actual);\n");
    push_str(&mut s, "    }\n");
    push_str(&mut s, "    let obj = unsafe { ");
    let ghost before_cast = s@;
    match m.receiver {
        MetaReceiver::Value => push_unbox(&mut s, "handle", path),
        MetaReceiver::Mut => {
            push_str(&mut s, "&mut (*(handle as *mut ffier::FfierHandleBox<");
            push_str(&mut s, path);
            push_str(&mut s, ">)).value");
        },
        _ => {
            push_str(&mut s, "&(*(handle as *const ffier::FfierHandleBox<");
            push_str(&mut s, path);
            push_str(&mut s, ">)).value");
        },
    }
    push_str(&mut s, " };\n");
    proof {
        reveal_strlit("handle");
    }
    assert(s@ =~= obj_binding(*e, *m));
    s
}

fn base_call_of(e: &ExportableMeta, m: &BridgeMethod) -> (r: String)
    ensures
        r@ == base_call(*e, *m),
{
    let args = args_of(&m.params);
    let mut s = if m.receiver == MetaReceiver::NoSelf {
        let mut t = owned("<");
        push_str(&mut t, e.struct_path.as_str());
        push_str(&mut t, ">::");
        t
    } else {
        owned("obj.")
    };
    push_str(&mut s, m.name.as_str());
    push_str(&mut s, "(");
    push_str(&mut s, args.as_str());
    push_str(&mut s, ")");
    s
}

fn return_part_of(path: &str, m: &BridgeMethod, call: &str) -> (r: String)
    ensures
        r@ == result_part(path@, *m, call@),
{
    let indirect = m.is_builder && m.receiver == MetaReceiver::Value;
    let mut s = String::new();
    match &m.ret {
        BridgeReturn::Void => {
            if indirect {
                push_str(&mut s, "    let result = ");
                push_str(&mut s, call);
                push_str(&mut s, ";\n");
                push_str(&mut s, "    unsafe { *handle_ptr = <");
                push_str(&mut s, path);
                push_str(&mut s, " as ffier::FfiType>::into_c(result) };\n");
            } else {
                push_str(&mut s, "    ");
                push_str(&mut s, call);
                push_str(&mut s, ";\n");
            }
        },
        BridgeReturn::Value { bridge_type } => {
            push_str(&mut s, "    let result = ");
            push_str(&mut s, call);
            push_str(&mut s, ";\n");
            push_str(&mut s, "    <");
            push_str(&mut s, bridge_type.as_str());
            push_str(&mut s, " as ffier::FfiType>::into_c(result)\n");
        },
        BridgeReturn::Result { ok } => {
            push_str(&mut s, "    match ");
            push_str(&mut s, call);
            push_str(&mut s, " {\n");
            match ok {
                Some(t) => {
                    push_str(&mut s, "        Ok(ok_val) => {\n");
                    push_str(&mut s, "            unsafe { result.write(<");
                    push_str(&mut s, t.as_str());
                    push_str(&mut s, " as ffier::FfiType>::into_c(ok_val)) };\n");
                    push_str(&mut s, "            ffier::FfierError::ok()\n");
                    push_str(&mut s, "        }\n");
                },
                None => {
                    if indirect {
                        push_str(&mut s, "        Ok(new_self) => {\n");
                        push_str(&mut s, "            unsafe { *handle_ptr = <");
                        push_str(&mut s, path);
                        push_str(&mut s, " as ffier::FfiType>::into_c(new_self) };\n");
                        push_str(&mut s, "            ffier::FfierError::ok()\n");
                        push_str(&mut s, "        }\n");
                    } else {
                        push_str(&mut s, "        Ok(_) => ffier::FfierError::ok(),\n");
                    }
                },
            }
            push_str(&mut s, "        Err(e) => ffier::FfierError::from_err(e),\n");
            push_str(&mut s, "    }\n");
        },
    }
    assert(s@ =~= result_part(path@, *m, call@));
    s
}

fn impl_args_of(ps: &Vec<BridgeParam>) -> (r: Vec<ImplTraitArg>)
    ensures
        r@ == impl_args(ps@),
{
    let mut out: Vec<ImplTraitArg> = Vec::new();
    let mut i: usize = 0;
    assert(ps@.take(0) =~= Seq::<BridgeParam>::empty());
    while i < ps.len()
        invariant
            i <= ps@.len(),
            out@ == impl_args(ps@.take(i as int)),
        decreases ps@.len() - i,
    {
        assert(ps@.take(i + 1).drop_last() =~= ps@.take(i as int));
        assert(ps@.take(i + 1).last() == ps@[i as int]);
        match &ps[i] {
            BridgeParam::ImplTrait(a) => {
                out.push(ImplTraitArg { name: a.name.clone(), trait_name: a.trait_name.clone(), dispatch: a.dispatch });
            },
            _ => {},
        }
        i = i + 1;
    }
    assert(ps@.take(ps@.len() as int) =~= ps@);
    out
}

fn method_fn_of(
    e: &ExportableMeta,
    m: &BridgeMethod,
    tm: &TraitMap,
    imps: &Vec<ImplementableEntry>,
    max_dispatch: u64,
    args: &Vec<ImplTraitArg>,
    flags: &Vec<Option<bool>>,
) -> (r: String)
    requires
        args@ == impl_args(m.params@),
        plan_flags(args@, *tm, max_dispatch, flags@),
        implementables_in(*tm, imps@),
    ensures
        r@ == method_fn_text(*e, *m, *tm, imps@, max_dispatch),
{
    let ffi = fn_name_of(e, m);
    let sig = join_strings(sig_items_of(m).as_slice(), ", ");
    let mut s = owned("#[unsafe(no_mangle)]\n");
    push_str(&mut s, "pub unsafe extern \"C\" fn ");
    push_str(&mut s, ffi.as_str());
    push_str(&mut s, "(");
    push_str(&mut s, sig.as_str());
    push_str(&mut s, ")");
    match &m.ret {
        BridgeReturn::Void => {},
        BridgeReturn::Value { bridge_type } => {
            push_str(&mut s, " -> ");
            push_str(&mut s, c_repr_of(bridge_type.as_str()).as_str());
        },
        BridgeReturn::Result { .. } => push_str(&mut s, " -> ffier::FfierError"),
    }
    push_str(&mut s, " {\n");
    let value_ret = match &m.ret {
        BridgeReturn::Value { .. } => true,
        _ => false,
    };
    if m.is_builder && m.receiver == MetaReceiver::Value && !value_ret {
        push_str(&mut s, "    let handle_ptr = handle;\n");
    }
    if m.receiver != MetaReceiver::NoSelf {
        push_str(&mut s, obj_binding_of(e, m, ffi.as_str()).as_str());
    }
    push_str(&mut s, vtable_bindings_of(ffi.as_str(), args, tm, imps, max_dispatch, flags).as_str());
    push_str(&mut s, slice_bindings_of(&m.params).as_str());
    let call = wrap_call(ffi.as_str(), args, tm, max_dispatch, flags, base_call_of(e, m));
    push_str(&mut s, return_part_of(e.struct_path.as_str(), m, call.as_str()).as_str());
    push_str(&mut s, "}\n\n");
    assert(s@ =~= method_fn_text(*e, *m, *tm, imps@, max_dispatch));
    s
}

fn destroy_fn_of(e: &ExportableMeta) -> (r: String)
    ensures
        r@ == destroy_fn_text(*e),
{
    let mut name = e.prefix.clone();
    push_str(&mut name, "_");
    push_str(&mut name, camel_to_snake(e.struct_name.as_str()).as_str());
    push_str(&mut name, "_destroy");
    let path = e.struct_path.as_str();
    let mut s = owned("#[unsafe(no_mangle)]\n");
    push_str(&mut s, "pub unsafe extern \"C\" fn ");
    push_str(&mut s, name.as_str());
    push_str(&mut s, "(handle: *mut core::ffi::c_void) {\n");
    push_str(&mut s, "    if !handle.is_null() {\n");
    push_str(&mut s, "        let __actual = unsafe { ffier::handle_type_tag(handle) };\n");
    push_str(&mut s, "        let __expected = <");
    push_str(&mut s, path);
    push_str(&mut s, " as ffier::FfiHandle>::TYPE_TAG;\n");
    push_str(&mut s, "        if __actual != __expected {\n");
    push_str(&mut s, "            __ffier_dispatch_panic(\"");
    push_str(&mut s, name.as_str());
    push_str(&mut s, "\", <");
    push_str(&mut s, path);
    push_str(&mut s, " as ffier::FfiHandle>::C_HANDLE_NAME, \"\", __actual);\n");
    push_str(&mut s, "        }\n");
    push_str(&mut s, "        drop(unsafe { Box::from_raw(handle as *mut ffier::FfierHandleBox<");
    push_str(&mut s, path);
    push_str(&mut s, ">) });\n");
    push_str(&mut s, "    }\n");
    push_str(&mut s, "}\n");
    assert(s@ =~= destroy_fn_text(*e));
    s
}

/// The `extern "C"` bridge of an exported type: each method's function
/// (with its `impl Trait` parameters dispatched as `plan_dispatch` decides
/// under the limit `max_dispatch`), then the destroy function; or, at the
/// first method whose dispatch is refused, its position and the refusal.
pub fn exportable_bridge_text(e: &ExportableMeta, tm: &TraitMap, imps: &Vec<ImplementableEntry>, max_dispatch: u64) -> (r: Result<
    String,
    (usize, DispatchError),
>)
    requires
        tm.wf(),
        implementables_in(*tm, imps@),
        forall|i: int| 0 <= i < e.methods@.len() ==> branches(impl_args((#[trigger] e.methods@[i]).params@), *tm) <= u64::MAX,
    ensures
        match r {
            Ok(s) => s@ == exportable_bridge_spec(*e, *tm, imps@, max_dispatch) && forall|i: int|
                0 <= i < e.methods@.len() ==> !plan_refused(#[trigger] e.methods@[i], *tm, max_dispatch),
            Err((i, err)) => i < e.methods@.len() && plan_refused(e.methods@[i as int], *tm, max_dispatch) && plan_ok(
                impl_args(e.methods@[i as int].params@),
                *tm,
                max_dispatch,
                Err(err),
            ) && forall|j: int| 0 <= j < i ==> !plan_refused(#[trigger] e.methods@[j], *tm, max_dispatch),
        },
{
    let mut out = String::new();
    let mut i: usize = 0;
    assert(e.methods@.take(0) =~= Seq::<BridgeMethod>::empty());
    while i < e.methods.len()
        invariant
            i <= e.methods@.len(),
            tm.wf(),
            implementables_in(*tm, imps@),
            forall|k: int| 0 <= k < e.methods@.len() ==> branches(impl_args((#[trigger] e.methods@[k]).params@), *tm) <= u64::MAX,
            out@ == methods_text(*e, e.methods@.take(i as int), *tm, imps@, max_dispatch),
            forall|j: int| 0 <= j < i ==> !plan_refused(#[trigger] e.methods@[j], *tm, max_dispatch),
        decreases e.methods@.len() - i,
    {
        let m = &e.methods[i];
        let args = impl_args_of(&m.params);
        assert(branches(impl_args(e.methods@[i as int].params@), *tm) <= u64::MAX);
        match plan_dispatch(args.as_slice(), tm, max_dispatch) {
            Err(err) => {
                return Err((i, err));
            },
            Ok(plan) => {
                let text = method_fn_of(e, m, tm, imps, max_dispatch, &args, &plan.vtable);
                push_str(&mut out, text.as_str());
            },
        }
        assert(e.methods@.take(i + 1).drop_last() =~= e.methods@.take(i as int));
        assert(e.methods@.take(i + 1).last() == e.methods@[i as int]);
        i = i + 1;
    }
    assert(e.methods@.take(e.methods@.len() as int) =~= e.methods@);
    push_str(&mut out, destroy_fn_of(e).as_str());
    Ok(out)
}

// ---------------------------------------------------------------------------
// Free functions
// ---------------------------------------------------------------------------

/// The C function of an exported free function (described as a method
/// without receiver): its parameters converted and its `impl Trait`
/// parameters dispatched as for a method, and the function at `fn_path`
/// called.
pub open spec fn free_fn_text(
    prefix: Seq<char>,
    fn_path: Seq<char>,
    m: BridgeMethod,
    tm: TraitMap,
    imps: Seq<ImplementableEntry>,
    max_dispatch: u64,
) -> Seq<char> {
    let ffi = prefix + "_"@ + m.ffi_name@;
    let args = impl_args(m.params@);
    let call = wrap_from(ffi, args, tm, max_dispatch, fn_path + "("@ + join_spec(args_items(m.params@), ", "@) + ")"@, 0);
    "#[unsafe(no_mangle)]\n"@ + "pub unsafe extern \"C\" fn "@ + ffi + "("@ + join_spec(sig_items(m), ", "@) + ")"@ + sig_ret(m) + " {\n"@
        + vtable_bindings(ffi, args, tm, imps, max_dispatch, args.len() as int) + slice_bindings(m.params@) + result_part(Seq::empty(), m, call)
        + "}\n\n"@
}

/// The bridge of an exported free function, given the library prefix and
/// the function's path; or, when the dispatch of its `impl Trait`
/// parameters is refused, the refusal.
pub fn free_fn_bridge_text(prefix: &str, fn_path: &str, m: &BridgeMethod, tm: &TraitMap, imps: &Vec<ImplementableEntry>, max_dispatch: u64) -> (r:
    Result<String, DispatchError>)
    requires
        m.receiver == MetaReceiver::NoSelf,
        tm.wf(),
        implementables_in(*tm, imps@),
        branches(impl_args(m.params@), *tm) <= u64::MAX,
    ensures
        match r {
            Ok(s) => s@ == free_fn_text(prefix@, fn_path@, *m, *tm, imps@, max_dispatch) && !plan_refused(*m, *tm, max_dispatch),
            Err(err) => plan_refused(*m, *tm, max_dispatch) && plan_ok(impl_args(m.params@), *tm, max_dispatch, Err(err)),
        },
{
    let args = impl_args_of(&m.params);
    match plan_dispatch(args.as_slice(), tm, max_dispatch) {
        Err(err) => Err(err),
        Ok(plan) => {
            let mut ffi = owned(prefix);
            push_str(&mut ffi, "_");
            push_str(&mut ffi, m.ffi_name.as_str());
            let sig = join_strings(sig_items_of(m).as_slice(), ", ");
            let mut s = owned("#[unsafe(no_mangle)]\n");
            push_str(&mut s, "pub unsafe extern \"C\" fn ");
            push_str(&mut s, ffi.as_str());
            push_str(&mut s, "(");
            push_str(&mut s, sig.as_str());
            push_str(&mut s, ")");
            match &m.ret {
                BridgeReturn::Void => {},
                BridgeReturn::Value { bridge_type } => {
                    push_str(&mut s, " -> ");
                    push_str(&mut s, c_repr_of(bridge_type.as_str()).as_str());
                },
                BridgeReturn::Result { .. } => push_str(&mut s, " -> ffier::FfierError"),
            }
            push_str(&mut s, " {\n");
            push_str(&mut s, vtable_bindings_of(ffi.as_str(), &args, tm, imps, max_dispatch, &plan.vtable).as_str());
            push_str(&mut s, slice_bindings_of(&m.params).as_str());
            let mut base = owned(fn_path);
            push_str(&mut base, "(");
            push_str(&mut base, args_of(&m.params).as_str());
            push_str(&mut base, ")");
            let call = wrap_call(ffi.as_str(), &args, tm, max_dispatch, &plan.vtable, base);
            push_str(&mut s, return_part_of("", m, call.as_str()).as_str());
            push_str(&mut s, "}\n\n");
            proof {
                reveal_strlit("");
            }
            assert(s@ =~= free_fn_text(prefix@, fn_path@, *m, *tm, imps@, max_dispatch));
            Ok(s)
        },
    }
}

} // verus!
