//! Calls into the library from trait methods, and the client source of a
//! free function.

use vstd::prelude::*;
use crate::client_method::{
    doc_attrs_text, emit_doc_attrs, err_call, err_value, from_c, out_call, ret_rust_type,
};
use crate::client_sig::{
    build_ffi_param_args, build_free_fn_extern_sig, emit_slice_pre_bindings, extern_sig, param_sigs, param_sigs_of, params_items,
    slice_bindings_text, ClientParam, MethodReturn, ParamList,
};
use crate::text::{join_spec, join_strings, owned, push_str, strings_view};

verus! {

// ---------------------------------------------------------------------------
// Building blocks
// ---------------------------------------------------------------------------

pub(crate) fn concat3(a: &str, b: &str, c: &str) -> (r: String)
    ensures
        r@ == a@ + b@ + c@,
{
    let mut s = owned(a);
    push_str(&mut s, b);
    push_str(&mut s, c);
    s
}

pub(crate) fn err_call_string(ffi: &str, args: &str) -> (r: String)
    ensures
        r@ == err_call(ffi@, args@),
{
    let mut s = owned(ffi);
    push_str(&mut s, "(");
    push_str(&mut s, args);
    if !args.is_empty() {
        push_str(&mut s, ", ");
    }
    push_str(&mut s, "&mut __err as *mut *mut core::ffi::c_void)");
    assert(s@ =~= err_call(ffi@, args@));
    s
}

pub(crate) fn out_call_string(ffi: &str, args: &str) -> (r: String)
    ensures
        r@ == out_call(ffi@, args@),
{
    let mut s = owned(ffi);
    push_str(&mut s, "(");
    push_str(&mut s, args);
    if !args.is_empty() {
        push_str(&mut s, ", ");
    }
    push_str(&mut s, "__out.as_mut_ptr(), &mut __err as *mut *mut core::ffi::c_void)");
    assert(s@ =~= out_call(ffi@, args@));
    s
}

pub(crate) fn from_c_string(ty: &str, v: &str) -> (r: String)
    ensures
        r@ == from_c(ty@, v@),
{
    let mut s = owned("unsafe { <");
    push_str(&mut s, ty);
    push_str(&mut s, " as FfiType>::from_c(");
    push_str(&mut s, v);
    push_str(&mut s, ") }");
    s
}

pub(crate) fn err_value_string(err_type: &str) -> (r: String)
    ensures
        r@ == err_value(err_type@),
{
    concat3("Err(", err_type, "::from_ffi(__r, __err))")
}

// ---------------------------------------------------------------------------
// Calls from trait methods
// ---------------------------------------------------------------------------

/// A call with the result out-parameter of a trait method, then the error
/// out-parameter.
pub open spec fn result_call(ffi: Seq<char>, args: Seq<char>) -> Seq<char> {
    ffi + "("@ + args + if args.len() == 0 {
        Seq::<char>::empty()
    } else {
        ", "@
    } + "__result.as_mut_ptr(), &mut __err as *mut *mut core::ffi::c_void)"@
}

/// A call into the library from a trait method and the conversion of what
/// it returns, each line after `indent`.
pub open spec fn ffi_call_return_text(ffi: Seq<char>, args: Seq<char>, ret: MethodReturn, indent: Seq<char>) -> Seq<char> {
    let call = ffi + "("@ + args + ")"@;
    match ret {
        MethodReturn::Void => indent + "unsafe { "@ + call + " }\n"@,
        MethodReturn::Value(t) => indent + "let __raw = unsafe { "@ + call + " };\n"@ + indent + from_c(t.rust_type@, "__raw"@)
            + "\n"@,
        MethodReturn::Result { ok, err_type, handle_or_null } => match ok {
            None => indent + "let mut __err: *mut core::ffi::c_void = core::ptr::null_mut();\n"@ + indent + "let __r = unsafe { "@
                + err_call(ffi, args) + " };\n"@ + indent + "if __r == 0 { Ok(()) } else { "@ + err_value(err_type@) + " }\n"@,
            Some(t) => if handle_or_null {
                indent + "let mut __err: *mut core::ffi::c_void = core::ptr::null_mut();\n"@ + indent + "let __raw = unsafe { "@
                    + err_call(ffi, args) + " };\n"@ + indent + "if !__raw.is_null() {\n"@ + indent + "    Ok("@ + from_c(
                    t.rust_type@,
                    "__raw"@,
                ) + ")\n"@ + indent + "} else {\n"@ + indent + "    Err("@ + err_type@ + "::from_ffi(0, __err))\n"@ + indent
                    + "}\n"@
            } else {
                indent + "let mut __err: *mut core::ffi::c_void = core::ptr::null_mut();\n"@ + indent
                    + "let mut __result = core::mem::MaybeUninit::<<"@ + t.static_type@ + " as FfiType>::CRepr>::uninit();\n"@
                    + indent + "let __r = unsafe { "@ + result_call(ffi, args) + " };\n"@ + indent + "if __r == 0 {\n"@ + indent
                    + "    Ok("@ + from_c(t.rust_type@, "__result.assume_init()"@) + ")\n"@ + indent + "} else {\n"@ + indent
                    + "    "@ + err_value(err_type@) + "\n"@ + indent + "}\n"@
            },
        },
    }
}

fn result_call_string(ffi: &str, args: &str) -> (r: String)
    ensures
        r@ == result_call(ffi@, args@),
{
    let mut s = owned(ffi);
    push_str(&mut s, "(");
    push_str(&mut s, args);
    if !args.is_empty() {
        push_str(&mut s, ", ");
    }
    push_str(&mut s, "__result.as_mut_ptr(), &mut __err as *mut *mut core::ffi::c_void)");
    assert(s@ =~= result_call(ffi@, args@));
    s
}

fn result_return_text(ffi: &str, args: &str, t_rust: &str, t_static: &str, err_type: &str, handle_or_null: bool, indent: &str) -> (r: String)
    ensures
        r@ == if handle_or_null {
            indent@ + "let mut __err: *mut core::ffi::c_void = core::ptr::null_mut();\n"@ + indent@ + "let __raw = unsafe { "@
                + err_call(ffi@, args@) + " };\n"@ + indent@ + "if !__raw.is_null() {\n"@ + indent@ + "    Ok("@ + from_c(
                t_rust@,
                "__raw"@,
            ) + ")\n"@ + indent@ + "} else {\n"@ + indent@ + "    Err("@ + err_type@ + "::from_ffi(0, __err))\n"@ + indent@
                + "}\n"@
        } else {
            indent@ + "let mut __err: *mut core::ffi::c_void = core::ptr::null_mut();\n"@ + indent@
                + "let mut __result = core::mem::MaybeUninit::<<"@ + t_static@ + " as FfiType>::CRepr>::uninit();\n"@ + indent@
                + "let __r = unsafe { "@ + result_call(ffi@, args@) + " };\n"@ + indent@ + "if __r == 0 {\n"@ + indent@ + "    Ok("@
                + from_c(t_rust@, "__result.assume_init()"@) + ")\n"@ + indent@ + "} else {\n"@ + indent@ + "    "@ + err_value(
                err_type@,
            ) + "\n"@ + indent@ + "}\n"@
        },
{
    let mut s = owned(indent);
    push_str(&mut s, "let mut __err: *mut core::ffi::c_void = core::ptr::null_mut();\n");
    push_str(&mut s, indent);
    if handle_or_null {
        push_str(&mut s, "let __raw = unsafe { ");
        push_str(&mut s, err_call_string(ffi, args).as_str());
        push_str(&mut s, " };\n");
        push_str(&mut s, indent);
        push_str(&mut s, "if !__raw.is_null() {\n");
        push_str(&mut s, indent);
        push_str(&mut s, "    Ok(");
        push_str(&mut s, from_c_string(t_rust, "__raw").as_str());
        push_str(&mut s, ")\n");
        push_str(&mut s, indent);
        push_str(&mut s, "} else {\n");
        push_str(&mut s, indent);
        push_str(&mut s, "    Err(");
        push_str(&mut s, err_type);
        push_str(&mut s, "::from_ffi(0, __err))\n");
        push_str(&mut s, indent);
        push_str(&mut s, "}\n");
    } else {
        push_str(&mut s, "let mut __result = core::mem::MaybeUninit::<<");
        push_str(&mut s, t_static);
        push_str(&mut s, " as FfiType>::CRepr>::uninit();\n");
        push_str(&mut s, indent);
        push_str(&mut s, "let __r = unsafe { ");
        push_str(&mut s, result_call_string(ffi, args).as_str());
        push_str(&mut s, " };\n");
        push_str(&mut s, indent);
        push_str(&mut s, "if __r == 0 {\n");
        push_str(&mut s, indent);
        push_str(&mut s, "    Ok(");
        push_str(&mut s, from_c_string(t_rust, "__result.assume_init()").as_str());
        push_str(&mut s, ")\n");
        push_str(&mut s, indent);
        push_str(&mut s, "} else {\n");
        push_str(&mut s, indent);
        push_str(&mut s, "    ");
        push_str(&mut s, err_value_string(err_type).as_str());
        push_str(&mut s, "\n");
        push_str(&mut s, indent);
        push_str(&mut s, "}\n");
    }
    s
}

/// Writes a call into the library from a trait method and the conversion
/// of what it returns.
pub fn emit_ffi_call_return(out: &mut String, ffi_name: &str, args_str: &str, ret: &MethodReturn, indent: &str)
    ensures
        final(out)@ == old(out)@ + ffi_call_return_text(ffi_name@, args_str@, *ret, indent@),
{
    let call = concat3(ffi_name, "(", args_str);
    let mut call = call;
    push_str(&mut call, ")");
    let text = match ret {
        MethodReturn::Void => {
            let mut s = owned(indent);
            push_str(&mut s, "unsafe { ");
            push_str(&mut s, call.as_str());
            push_str(&mut s, " }\n");
            s
        },
        MethodReturn::Value(t) => {
            let mut s = owned(indent);
            push_str(&mut s, "let __raw = unsafe { ");
            push_str(&mut s, call.as_str());
            push_str(&mut s, " };\n");
            push_str(&mut s, indent);
            push_str(&mut s, from_c_string(t.rust_type.as_str(), "__raw").as_str());
            push_str(&mut s, "\n");
            s
        },
        MethodReturn::Result { ok, err_type, handle_or_null } => match ok {
            None => {
                let mut s = owned(indent);
                push_str(&mut s, "let mut __err: *mut core::ffi::c_void = core::ptr::null_mut();\n");
                push_str(&mut s, indent);
                push_str(&mut s, "let __r = unsafe { ");
                push_str(&mut s, err_call_string(ffi_name, args_str).as_str());
                push_str(&mut s, " };\n");
                push_str(&mut s, indent);
                push_str(&mut s, "if __r == 0 { Ok(()) } else { ");
                push_str(&mut s, err_value_string(err_type.as_str()).as_str());
                push_str(&mut s, " }\n");
                s
            },
            Some(t) => result_return_text(
                ffi_name,
                args_str,
                t.rust_type.as_str(),
                t.static_type.as_str(),
                err_type.as_str(),
                *handle_or_null,
                indent,
            ),
        },
    };
    push_str(out, text.as_str());
}

// ---------------------------------------------------------------------------
// Free functions
// ---------------------------------------------------------------------------

/// A free function of the library as the client sees it.
pub struct ClientFreeFunction {
    pub name: String,
    pub ffi_name: String,
    pub doc: Vec<String>,
    pub params: Vec<ClientParam>,
    pub ret: MethodReturn,
}

/// The return type of a free function's wrapper.
pub open spec fn free_ret_text(ret: MethodReturn) -> Seq<char> {
    match ret {
        MethodReturn::Void => Seq::empty(),
        _ => " -> "@ + ret_rust_type(ret),
    }
}

/// The call and the conversion of its result in a free function's wrapper.
pub open spec fn free_body_text(ffi: Seq<char>, args: Seq<char>, ret: MethodReturn, erf: Seq<char>) -> Seq<char> {
    let call = ffi + "("@ + args + ")"@;
    match ret {
        MethodReturn::Void => "    unsafe { "@ + call + " }\n"@,
        MethodReturn::Value(t) => "    let __raw = unsafe { "@ + call + " };\n"@ + "    "@ + from_c(t.rust_type@, "__raw"@) + "\n"@,
        MethodReturn::Result { ok, err_type, handle_or_null } => match ok {
            None => "    let mut __err: *mut core::ffi::c_void = core::ptr::null_mut();\n"@ + "    let __r = unsafe { "@ + err_call(
                ffi,
                args,
            ) + " };\n"@ + "    if __r == 0 { Ok(()) } else { "@ + err_value(err_type@) + " }\n"@,
            Some(t) => if handle_or_null {
                "    let mut __err: *mut core::ffi::c_void = core::ptr::null_mut();\n"@ + "    let __raw = unsafe { "@ + err_call(
                    ffi,
                    args,
                ) + " };\n"@ + "    if !__raw.is_null() {\n"@ + "        Ok("@ + from_c(t.rust_type@, "__raw"@) + ")\n"@
                    + "    } else {\n"@ + "        let __r = unsafe { "@ + erf + "(__err) };\n"@ + "        "@ + err_value(err_type@)
                    + "\n"@ + "    }\n"@
            } else {
                "    let mut __out = std::mem::MaybeUninit::uninit();\n"@
                    + "    let mut __err: *mut core::ffi::c_void = core::ptr::null_mut();\n"@ + "    let __r = unsafe { "@ + out_call(
                    ffi,
                    args,
                ) + " };\n"@ + "    if __r == 0 {\n"@ + "        Ok("@ + from_c(t.rust_type@, "__out.assume_init()"@) + ")\n"@
                    + "    } else {\n"@ + "        "@ + err_value(err_type@) + "\n"@ + "    }\n"@
            },
        },
    }
}

/// The client source of a free function: its extern declaration, then its
/// documented safe wrapper.
pub open spec fn free_function_text(f: ClientFreeFunction, erf: Seq<char>) -> Seq<char> {
    "unsafe extern \"C\" {\n"@ + "    pub fn "@ + extern_sig(f.ffi_name@, Seq::empty(), f.params@, f.ret, false) + ";\n"@ + "}\n"@
        + "\n"@ + doc_attrs_text(strings_view(f.doc@), Seq::empty()) + "pub fn "@ + f.name@ + "("@ + join_spec(
        param_sigs(f.params@),
        ", "@,
    ) + ")"@ + free_ret_text(f.ret) + " {\n"@ + slice_bindings_text(f.params@, "    "@) + free_body_text(
        f.ffi_name@,
        join_spec(params_items(ParamList::FfiArgs, f.params@), ", "@),
        f.ret,
        erf,
    ) + "}\n"@ + "\n"@
}

fn free_ret(ret: &MethodReturn) -> (r: String)
    ensures
        r@ == free_ret_text(*ret),
{
    match ret {
        MethodReturn::Void => String::new(),
        MethodReturn::Value(t) => {
            let mut s = owned(" -> ");
            push_str(&mut s, t.rust_type.as_str());
            s
        },
        MethodReturn::Result { ok, err_type, .. } => {
            let mut s = owned(" -> ");
            let mut ty = owned("Result<");
            match ok {
                Some(t) => push_str(&mut ty, t.rust_type.as_str()),
                None => push_str(&mut ty, "()"),
            }
            push_str(&mut ty, ", ");
            push_str(&mut ty, err_type.as_str());
            push_str(&mut ty, ">");
            push_str(&mut s, ty.as_str());
            s
        },
    }
}

fn free_result_body(ffi: &str, args: &str, t_rust: &str, err_type: &str, handle_or_null: bool, erf: &str) -> (r: String)
    ensures
        r@ == if handle_or_null {
            "    let mut __err: *mut core::ffi::c_void = core::ptr::null_mut();\n"@ + "    let __raw = unsafe { "@ + err_call(
                ffi@,
                args@,
            ) + " };\n"@ + "    if !__raw.is_null() {\n"@ + "        Ok("@ + from_c(t_rust@, "__raw"@) + ")\n"@
                + "    } else {\n"@ + "        let __r = unsafe { "@ + erf@ + "(__err) };\n"@ + "        "@ + err_value(err_type@)
                + "\n"@ + "    }\n"@
        } else {
            "    let mut __out = std::mem::MaybeUninit::uninit();\n"@
                + "    let mut __err: *mut core::ffi::c_void = core::ptr::null_mut();\n"@ + "    let __r = unsafe { "@ + out_call(
                ffi@,
                args@,
            ) + " };\n"@ + "    if __r == 0 {\n"@ + "        Ok("@ + from_c(t_rust@, "__out.assume_init()"@) + ")\n"@
                + "    } else {\n"@ + "        "@ + err_value(err_type@) + "\n"@ + "    }\n"@
        },
{
    let err = err_value_string(err_type);
    if handle_or_null {
        let mut s = owned("    let mut __err: *mut core::ffi::c_void = core::ptr::null_mut();\n");
        push_str(&mut s, "    let __raw = unsafe { ");
        push_str(&mut s, err_call_string(ffi, args).as_str());
        push_str(&mut s, " };\n");
        push_str(&mut s, "    if !__raw.is_null() {\n");
        push_str(&mut s, "        Ok(");
        push_str(&mut s, from_c_string(t_rust, "__raw").as_str());
        push_str(&mut s, ")\n");
        push_str(&mut s, "    } else {\n");
        push_str(&mut s, "        let __r = unsafe { ");
        push_str(&mut s, erf);
        push_str(&mut s, "(__err) };\n");
        push_str(&mut s, "        ");
        push_str(&mut s, err.as_str());
        push_str(&mut s, "\n");
        push_str(&mut s, "    }\n");
        s
    } else {
        let mut s = owned("    let mut __out = std::mem::MaybeUninit::uninit();\n");
        push_str(&mut s, "    let mut __err: *mut core::ffi::c_void = core::ptr::null_mut();\n");
        push_str(&mut s, "    let __r = unsafe { ");
        push_str(&mut s, out_call_string(ffi, args).as_str());
        push_str(&mut s, " };\n");
        push_str(&mut s, "    if __r == 0 {\n");
        push_str(&mut s, "        Ok(");
        push_str(&mut s, from_c_string(t_rust, "__out.assume_init()").as_str());
        push_str(&mut s, ")\n");
        push_str(&mut s, "    } else {\n");
        push_str(&mut s, "        ");
        push_str(&mut s, err.as_str());
        push_str(&mut s, "\n");
        push_str(&mut s, "    }\n");
        s
    }
}

fn free_body(ffi: &str, args: &str, ret: &MethodReturn, erf: &str) -> (r: String)
    ensures
        r@ == free_body_text(ffi@, args@, *ret, erf@),
{
    let mut call = concat3(ffi, "(", args);
    push_str(&mut call, ")");
    match ret {
        MethodReturn::Void => concat3("    unsafe { ", call.as_str(), " }\n"),
        MethodReturn::Value(t) => {
            let mut s = concat3("    let __raw = unsafe { ", call.as_str(), " };\n");
            push_str(&mut s, "    ");
            push_str(&mut s, from_c_string(t.rust_type.as_str(), "__raw").as_str());
            push_str(&mut s, "\n");
            s
        },
        MethodReturn::Result { ok, err_type, handle_or_null } => match ok {
            None => {
                let mut s = owned("    let mut __err: *mut core::ffi::c_void = core::ptr::null_mut();\n");
                push_str(&mut s, "    let __r = unsafe { ");
                push_str(&mut s, err_call_string(ffi, args).as_str());
                push_str(&mut s, " };\n");
                push_str(&mut s, "    if __r == 0 { Ok(()) } else { ");
                push_str(&mut s, err_value_string(err_type.as_str()).as_str());
                push_str(&mut s, " }\n");
                s
            },
            Some(t) => free_result_body(ffi, args, t.rust_type.as_str(), err_type.as_str(), *handle_or_null, erf),
        },
    }
}

/// Writes the client source of a free function; `error_result_fn` is the
/// error trait's `result` dispatch function, which a handle-returning
/// function calls on failure.
pub fn emit_free_function(out: &mut String, f: &ClientFreeFunction, error_result_fn: &str)
    ensures
        final(out)@ == old(out)@ + free_function_text(*f, error_result_fn@),
{
    let mut t = owned("unsafe extern \"C\" {\n");
    push_str(&mut t, "    pub fn ");
    push_str(&mut t, build_free_fn_extern_sig(f.ffi_name.as_str(), f.params.as_slice(), &f.ret).as_str());
    push_str(&mut t, ";\n");
    push_str(&mut t, "}\n");
    push_str(&mut t, "\n");
    proof {
        reveal_strlit("");
    }
    emit_doc_attrs(&mut t, &f.doc, "");
    push_str(&mut t, "pub fn ");
    push_str(&mut t, f.name.as_str());
    push_str(&mut t, "(");
    push_str(&mut t, join_strings(param_sigs_of(f.params.as_slice()).as_slice(), ", ").as_str());
    push_str(&mut t, ")");
    push_str(&mut t, free_ret(&f.ret).as_str());
    push_str(&mut t, " {\n");
    emit_slice_pre_bindings(&mut t, f.params.as_slice(), "    ");
    let args = join_strings(build_ffi_param_args(f.params.as_slice()).as_slice(), ", ");
    push_str(&mut t, free_body(f.ffi_name.as_str(), args.as_str(), &f.ret, error_result_fn).as_str());
    push_str(&mut t, "}\n");
    push_str(&mut t, "\n");
    assert(""@ =~= Seq::<char>::empty());
    push_str(out, t.as_str());
}

} // verus!
