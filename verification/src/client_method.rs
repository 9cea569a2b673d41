//! The safe wrapper methods of the Rust client bindings: their return types
//! and the bodies that call the library's C functions.

use vstd::prelude::*;
use crate::bridge::{RefKind, TypeRef, TypeRefView};
use crate::client_sig::{
    build_ffi_param_args, emit_slice_pre_bindings, escape_doc, escape_doc_line, method_lifetimes, method_lifetimes_text, param_sigs,
    param_sigs_of, params_items, receiver_str, receiver_text, slice_bindings_text, ClientParam, MethodReturn, ParamList, TypeText,
};
use crate::client_funcs::{err_call_string, err_value_string, from_c_string, out_call_string};
use crate::header::Receiver;
use crate::schema::{TypeEntryView, TypeKind, TypeRegistry};
use crate::text::{join_spec, join_strings, owned, push_str, strings_view};

verus! {

// ---------------------------------------------------------------------------
// Borrowed handles
// ---------------------------------------------------------------------------

/// `Some(name)` when a type is `&Name` or `&mut Name` for a registered
/// handle type `Name`.
pub open spec fn borrowed_handle_spec(tr: TypeRefView, reg: Map<Seq<char>, TypeEntryView>) -> Option<Seq<char>> {
    if tr.ref_kind != RefKind::ByValue && reg.contains_key(tr.name) && reg[tr.name].kind is Handle {
        Some(tr.name)
    } else {
        None
    }
}

/// The bare name of a type that borrows an exported handle, if it does.
pub fn borrowed_handle_name(tr: &TypeRef, reg: &TypeRegistry) -> (r: Option<String>)
    requires
        reg.wf(),
    ensures
        match r {
            Some(n) => borrowed_handle_spec(tr@, reg@) == Some(n@),
            None => borrowed_handle_spec(tr@, reg@) is None,
        },
{
    if tr.ref_kind == RefKind::ByValue {
        return None;
    }
    match reg.get(tr.name.as_str()) {
        Some(e) => match &e.kind {
            TypeKind::Handle { .. } => Some(tr.name.clone()),
            _ => None,
        },
        None => None,
    }
}

// ---------------------------------------------------------------------------
// Methods
// ---------------------------------------------------------------------------

/// A method as the client wrapper sees it.
pub struct ClientMethod {
    pub name: String,
    pub doc: Vec<String>,
    /// The method's own lifetime parameters, without the leading `'`.
    pub method_lifetimes: Vec<String>,
    pub receiver: Receiver,
    pub params: Vec<ClientParam>,
    pub ret: MethodReturn,
    /// The method returns the builder itself (`Self` or `Result<Self, E>`).
    pub is_builder: bool,
    /// The C function of a method exported by a type (none for a method in
    /// another context).
    pub ffi_name: Option<String>,
}

/// The Rust type of a return: `Result<ok, err>` for a result (`()` for no
/// success value).
pub open spec fn ret_rust_type(ret: MethodReturn) -> Seq<char> {
    match ret {
        MethodReturn::Void => "()"@,
        MethodReturn::Value(t) => t.rust_type@,
        MethodReturn::Result { ok, err_type, .. } => "Result<"@ + match ok {
            Some(t) => t.rust_type@,
            None => "()"@,
        } + ", "@ + err_type@ + ">"@,
    }
}

/// The bare handle name when a return borrows an exported handle.
pub open spec fn borrowed_ret(ret: MethodReturn) -> Option<Seq<char>> {
    match ret {
        MethodReturn::Value(t) => opt_view(t.borrowed_handle),
        MethodReturn::Result { ok: Some(t), .. } => opt_view(t.borrowed_handle),
        _ => None,
    }
}

/// The view of an optional string.
pub open spec fn opt_view(o: Option<String>) -> Option<Seq<char>> {
    match o {
        Some(s) => Some(s@),
        None => None,
    }
}

/// The return type of a safe wrapper: a builder gives back itself, a
/// borrowed handle comes back as an owned wrapper, `()` is left out.
pub open spec fn wrapper_return_text(ret: MethodReturn, receiver: Receiver, is_builder: bool) -> Seq<char> {
    if is_builder {
        if receiver == Receiver::Mut {
            " -> &mut Self"@
        } else {
            " -> "@ + ret_rust_type(ret)
        }
    } else {
        match borrowed_ret(ret) {
            Some(bare) => match ret {
                MethodReturn::Result { err_type, .. } => " -> Result<"@ + bare + ", "@ + err_type@ + ">"@,
                _ => " -> "@ + bare,
            },
            None => match ret {
                MethodReturn::Void => Seq::empty(),
                _ => " -> "@ + ret_rust_type(ret),
            },
        }
    }
}

pub(crate) fn rust_type_of(ret: &MethodReturn) -> (r: String)
    ensures
        r@ == ret_rust_type(*ret),
{
    match ret {
        MethodReturn::Void => owned("()"),
        MethodReturn::Value(t) => t.rust_type.clone(),
        MethodReturn::Result { ok, err_type, .. } => {
            let mut s = owned("Result<");
            match ok {
                Some(t) => push_str(&mut s, t.rust_type.as_str()),
                None => push_str(&mut s, "()"),
            }
            push_str(&mut s, ", ");
            push_str(&mut s, err_type.as_str());
            push_str(&mut s, ">");
            s
        },
    }
}

fn borrowed_ret_of(ret: &MethodReturn) -> (r: Option<&String>)
    ensures
        match r {
            Some(n) => borrowed_ret(*ret) == Some(n@),
            None => borrowed_ret(*ret) is None,
        },
{
    match ret {
        MethodReturn::Value(t) => t.borrowed_handle.as_ref(),
        MethodReturn::Result { ok: Some(t), .. } => t.borrowed_handle.as_ref(),
        _ => None,
    }
}

/// Builds the return type of a safe wrapper.
pub fn build_wrapper_return_type(ret: &MethodReturn, receiver: Receiver, is_builder: bool) -> (r: String)
    ensures
        r@ == wrapper_return_text(*ret, receiver, is_builder),
{
    if is_builder {
        if receiver == Receiver::Mut {
            return owned(" -> &mut Self");
        }
        let mut s = owned(" -> ");
        push_str(&mut s, rust_type_of(ret).as_str());
        return s;
    }
    match borrowed_ret_of(ret) {
        Some(bare) => {
            let mut s = owned(" -> ");
            match ret {
                MethodReturn::Result { err_type, .. } => {
                    let mut s = owned(" -> Result<");
                    push_str(&mut s, bare.as_str());
                    push_str(&mut s, ", ");
                    push_str(&mut s, err_type.as_str());
                    push_str(&mut s, ">");
                    s
                },
                _ => {
                    push_str(&mut s, bare.as_str());
                    s
                },
            }
        },
        None => match ret {
            MethodReturn::Void => String::new(),
            _ => {
                let mut s = owned(" -> ");
                push_str(&mut s, rust_type_of(ret).as_str());
                s
            },
        },
    }
}

// ---------------------------------------------------------------------------
// Method bodies
// ---------------------------------------------------------------------------

/// The receiver's own argument to the C function.
pub open spec fn self_args(receiver: Receiver, is_builder_type: bool) -> Seq<Seq<char>> {
    match receiver {
        Receiver::NoSelf => Seq::empty(),
        Receiver::Value => if is_builder_type {
            seq!["&mut __handle as *mut *mut core::ffi::c_void as *mut core::ffi::c_void"@]
        } else {
            seq!["__handle"@]
        },
        _ => seq!["self.0"@],
    }
}

/// The argument list of the C call.
pub open spec fn call_args_text(receiver: Receiver, is_builder_type: bool, params: Seq<ClientParam>) -> Seq<char> {
    join_spec(self_args(receiver, is_builder_type) + params_items(ParamList::FfiArgs, params), ", "@)
}

/// `, ` before the out-parameters when there are arguments before them.
pub open spec fn arg_sep(args: Seq<char>) -> Seq<char> {
    if args.len() == 0 {
        Seq::empty()
    } else {
        ", "@
    }
}

/// A call with the error out-parameter last.
pub open spec fn err_call(ffi: Seq<char>, args: Seq<char>) -> Seq<char> {
    ffi + "("@ + args + arg_sep(args) + "&mut __err as *mut *mut core::ffi::c_void)"@
}

/// A call with the success and error out-parameters last.
pub open spec fn out_call(ffi: Seq<char>, args: Seq<char>) -> Seq<char> {
    ffi + "("@ + args + arg_sep(args) + "__out.as_mut_ptr(), &mut __err as *mut *mut core::ffi::c_void)"@
}

/// The builder rebuilt around its handle.
pub open spec fn self_ctor(has_lifetimes: bool) -> Seq<char> {
    if has_lifetimes {
        "Self(__handle, std::marker::PhantomData)"@
    } else {
        "Self(__handle)"@
    }
}

/// The declaration of the error out-parameter.
pub open spec fn err_decl() -> Seq<char> {
    "        let mut __err: *mut core::ffi::c_void = core::ptr::null_mut();\n"@
}

/// The error value built from a result code.
pub open spec fn err_value(err_type: Seq<char>) -> Seq<char> {
    "Err("@ + err_type + "::from_ffi(__r, __err))"@
}

/// A C value converted back to its Rust type.
pub open spec fn from_c(ty: Seq<char>, v: Seq<char>) -> Seq<char> {
    "unsafe { <"@ + ty + " as FfiType>::from_c("@ + v + ") }"@
}

/// The line that takes the handle out of a by-value receiver.
pub open spec fn handle_line(receiver: Receiver, is_builder_type: bool) -> Seq<char> {
    if receiver == Receiver::Value {
        if is_builder_type {
            "        let mut __handle = { let this = std::mem::ManuallyDrop::new(self); this.0 };\n"@
        } else {
            "        let __handle = { let this = std::mem::ManuallyDrop::new(self); this.0 };\n"@
        }
    } else {
        Seq::empty()
    }
}

/// The call and the conversion of its result, by the kind of return.
pub open spec fn call_body_text(
    m: ClientMethod,
    ffi: Seq<char>,
    args: Seq<char>,
    has_lifetimes: bool,
    error_result_fn: Seq<char>,
) -> Seq<char> {
    let by_value = m.receiver == Receiver::Value;
    let call = ffi + "("@ + args + ")"@;
    match m.ret {
        MethodReturn::Void => "        unsafe { "@ + call + " }\n"@,
        MethodReturn::Value(t) => if m.is_builder && m.receiver == Receiver::Mut {
            "        unsafe { "@ + call + " };\n"@ + "        self\n"@
        } else if m.is_builder && by_value {
            "        unsafe { "@ + call + " };\n"@ + "        "@ + self_ctor(has_lifetimes) + "\n"@
        } else {
            "        let __raw = unsafe { "@ + call + " };\n"@ + match t.borrowed_handle {
                Some(bare) => "        "@ + bare@ + "(__raw)\n"@,
                None => "        "@ + from_c(t.rust_type@, "__raw"@) + "\n"@,
            }
        },
        MethodReturn::Result { ok, err_type, handle_or_null } => match ok {
            None => err_decl() + "        let __r = unsafe { "@ + err_call(ffi, args) + " };\n"@
                + "        if __r == 0 { Ok(()) } else { "@ + err_value(err_type@) + " }\n"@,
            Some(t) => if m.is_builder && by_value {
                err_decl() + "        let __r = unsafe { "@ + err_call(ffi, args) + " };\n"@ + "        if __r == 0 { Ok("@
                    + self_ctor(has_lifetimes) + ") } else { "@ + err_value(err_type@) + " }\n"@
            } else if m.is_builder && m.receiver == Receiver::Mut {
                err_decl() + "        let __r = unsafe { "@ + err_call(ffi, args) + " };\n"@
                    + "        if __r == 0 { Ok(self) } else { "@ + err_value(err_type@) + " }\n"@
            } else if handle_or_null {
                err_decl() + "        let __raw = unsafe { "@ + err_call(ffi, args) + " };\n"@ + "        if !__raw.is_null() {\n"@
                    + match t.borrowed_handle {
                    Some(bare) => "            Ok("@ + bare@ + "(__raw))\n"@,
                    None => "            Ok("@ + from_c(t.rust_type@, "__raw"@) + ")\n"@,
                } + "        } else {\n"@ + "            let __r = unsafe { "@ + error_result_fn + "(__err) };\n"@ + "            "@
                    + err_value(err_type@) + "\n"@ + "        }\n"@
            } else {
                "        let mut __out = std::mem::MaybeUninit::uninit();\n"@ + err_decl() + "        let __r = unsafe { "@
                    + out_call(ffi, args) + " };\n"@ + "        if __r == 0 {\n"@ + "            Ok("@ + from_c(
                    t.rust_type@,
                    "__out.assume_init()"@,
                ) + ")\n"@ + "        } else {\n"@ + "            "@ + err_value(err_type@) + "\n"@ + "        }\n"@
            },
        },
    }
}

/// The body of a safe wrapper: the handle taken out of a by-value receiver,
/// the slice bindings, then the call.
pub open spec fn method_body_text(
    m: ClientMethod,
    ffi: Seq<char>,
    is_builder_type: bool,
    has_lifetimes: bool,
    error_result_fn: Seq<char>,
) -> Seq<char> {
    handle_line(m.receiver, is_builder_type) + slice_bindings_text(m.params@, "        "@) + call_body_text(
        m,
        ffi,
        call_args_text(m.receiver, is_builder_type, m.params@),
        has_lifetimes,
        error_result_fn,
    )
}

fn call_args(receiver: Receiver, is_builder_type: bool, params: &[ClientParam]) -> (r: String)
    ensures
        r@ == call_args_text(receiver, is_builder_type, params@),
{
    let mut args: Vec<String> = Vec::new();
    match receiver {
        Receiver::NoSelf => {},
        Receiver::Value => if is_builder_type {
            args.push(owned("&mut __handle as *mut *mut core::ffi::c_void as *mut core::ffi::c_void"));
        } else {
            args.push(owned("__handle"));
        },
        _ => args.push(owned("self.0")),
    }
    let ghost a0 = strings_view(args@);
    assert(a0 =~= self_args(receiver, is_builder_type));
    let mut rest = build_ffi_param_args(params);
    let ghost r0 = strings_view(rest@);
    args.append(&mut rest);
    assert(strings_view(args@) =~= a0 + r0);
    join_strings(args.as_slice(), ", ")
}

fn self_ctor_str(has_lifetimes: bool) -> (r: String)
    ensures
        r@ == self_ctor(has_lifetimes),
{
    if has_lifetimes {
        owned("Self(__handle, std::marker::PhantomData)")
    } else {
        owned("Self(__handle)")
    }
}

fn raw_result_line(t: &TypeText, in_ok: bool) -> (r: String)
    ensures
        r@ == if in_ok {
            match t.borrowed_handle {
                Some(bare) => "            Ok("@ + bare@ + "(__raw))\n"@,
                None => "            Ok("@ + from_c(t.rust_type@, "__raw"@) + ")\n"@,
            }
        } else {
            match t.borrowed_handle {
                Some(bare) => "        "@ + bare@ + "(__raw)\n"@,
                None => "        "@ + from_c(t.rust_type@, "__raw"@) + "\n"@,
            }
        },
{
    let (head, tail) = if in_ok {
        ("            Ok(", ")\n")
    } else {
        ("        ", "\n")
    };
    let mut s = owned(head);
    match &t.borrowed_handle {
        Some(bare) => {
            push_str(&mut s, bare.as_str());
            if in_ok {
                push_str(&mut s, "(__raw))\n");
            } else {
                push_str(&mut s, "(__raw)\n");
            }
        },
        None => {
            push_str(&mut s, from_c_string(t.rust_type.as_str(), "__raw").as_str());
            push_str(&mut s, tail);
        },
    }
    s
}

fn value_body(m: &ClientMethod, t: &TypeText, call: &str, has_lifetimes: bool) -> (r: String)
    requires
        m.ret == MethodReturn::Value(*t),
    ensures
        r@ == if m.is_builder && m.receiver == Receiver::Mut {
            "        unsafe { "@ + call@ + " };\n"@ + "        self\n"@
        } else if m.is_builder && m.receiver == Receiver::Value {
            "        unsafe { "@ + call@ + " };\n"@ + "        "@ + self_ctor(has_lifetimes) + "\n"@
        } else {
            "        let __raw = unsafe { "@ + call@ + " };\n"@ + match t.borrowed_handle {
                Some(bare) => "        "@ + bare@ + "(__raw)\n"@,
                None => "        "@ + from_c(t.rust_type@, "__raw"@) + "\n"@,
            }
        },
{
    if m.is_builder && (m.receiver == Receiver::Mut || m.receiver == Receiver::Value) {
        let mut s = owned("        unsafe { ");
        push_str(&mut s, call);
        push_str(&mut s, " };\n");
        if m.receiver == Receiver::Mut {
            push_str(&mut s, "        self\n");
        } else {
            push_str(&mut s, "        ");
            push_str(&mut s, self_ctor_str(has_lifetimes).as_str());
            push_str(&mut s, "\n");
        }
        s
    } else {
        let mut s = owned("        let __raw = unsafe { ");
        push_str(&mut s, call);
        push_str(&mut s, " };\n");
        push_str(&mut s, raw_result_line(t, false).as_str());
        s
    }
}

fn result_body(
    m: &ClientMethod,
    t: &TypeText,
    err_type: &str,
    handle_or_null: bool,
    ffi: &str,
    args: &str,
    has_lifetimes: bool,
    error_result_fn: &str,
) -> (r: String)
    ensures
        r@ == if m.is_builder && m.receiver == Receiver::Value {
            err_decl() + "        let __r = unsafe { "@ + err_call(ffi@, args@) + " };\n"@ + "        if __r == 0 { Ok("@
                + self_ctor(has_lifetimes) + ") } else { "@ + err_value(err_type@) + " }\n"@
        } else if m.is_builder && m.receiver == Receiver::Mut {
            err_decl() + "        let __r = unsafe { "@ + err_call(ffi@, args@) + " };\n"@
                + "        if __r == 0 { Ok(self) } else { "@ + err_value(err_type@) + " }\n"@
        } else if handle_or_null {
            err_decl() + "        let __raw = unsafe { "@ + err_call(ffi@, args@) + " };\n"@ + "        if !__raw.is_null() {\n"@
                + match t.borrowed_handle {
                Some(bare) => "            Ok("@ + bare@ + "(__raw))\n"@,
                None => "            Ok("@ + from_c(t.rust_type@, "__raw"@) + ")\n"@,
            } + "        } else {\n"@ + "            let __r = unsafe { "@ + error_result_fn@ + "(__err) };\n"@ + "            "@
                + err_value(err_type@) + "\n"@ + "        }\n"@
        } else {
            "        let mut __out = std::mem::MaybeUninit::uninit();\n"@ + err_decl() + "        let __r = unsafe { "@
                + out_call(ffi@, args@) + " };\n"@ + "        if __r == 0 {\n"@ + "            Ok("@ + from_c(
                t.rust_type@,
                "__out.assume_init()"@,
            ) + ")\n"@ + "        } else {\n"@ + "            "@ + err_value(err_type@) + "\n"@ + "        }\n"@
        },
{
    let err = err_value_string(err_type);
    if m.is_builder && (m.receiver == Receiver::Value || m.receiver == Receiver::Mut) {
        let mut s = owned("        let mut __err: *mut core::ffi::c_void = core::ptr::null_mut();\n");
        push_str(&mut s, "        let __r = unsafe { ");
        push_str(&mut s, err_call_string(ffi, args).as_str());
        push_str(&mut s, " };\n");
        if m.receiver == Receiver::Value {
            push_str(&mut s, "        if __r == 0 { Ok(");
            push_str(&mut s, self_ctor_str(has_lifetimes).as_str());
            push_str(&mut s, ") } else { ");
        } else {
            push_str(&mut s, "        if __r == 0 { Ok(self) } else { ");
        }
        push_str(&mut s, err.as_str());
        push_str(&mut s, " }\n");
        s
    } else if handle_or_null {
        let mut s = owned("        let mut __err: *mut core::ffi::c_void = core::ptr::null_mut();\n");
        push_str(&mut s, "        let __raw = unsafe { ");
        push_str(&mut s, err_call_string(ffi, args).as_str());
        push_str(&mut s, " };\n");
        push_str(&mut s, "        if !__raw.is_null() {\n");
        push_str(&mut s, raw_result_line(t, true).as_str());
        push_str(&mut s, "        } else {\n");
        push_str(&mut s, "            let __r = unsafe { ");
        push_str(&mut s, error_result_fn);
        push_str(&mut s, "(__err) };\n");
        push_str(&mut s, "            ");
        push_str(&mut s, err.as_str());
        push_str(&mut s, "\n");
        push_str(&mut s, "        }\n");
        s
    } else {
        let mut s = owned("        let mut __out = std::mem::MaybeUninit::uninit();\n");
        push_str(&mut s, "        let mut __err: *mut core::ffi::c_void = core::ptr::null_mut();\n");
        push_str(&mut s, "        let __r = unsafe { ");
        push_str(&mut s, out_call_string(ffi, args).as_str());
        push_str(&mut s, " };\n");
        push_str(&mut s, "        if __r == 0 {\n");
        push_str(&mut s, "            Ok(");
        push_str(&mut s, from_c_string(t.rust_type.as_str(), "__out.assume_init()").as_str());
        push_str(&mut s, ")\n");
        push_str(&mut s, "        } else {\n");
        push_str(&mut s, "            ");
        push_str(&mut s, err.as_str());
        push_str(&mut s, "\n");
        push_str(&mut s, "        }\n");
        s
    }
}

fn call_body(m: &ClientMethod, ffi: &str, args: &str, has_lifetimes: bool, error_result_fn: &str) -> (r: String)
    ensures
        r@ == call_body_text(*m, ffi@, args@, has_lifetimes, error_result_fn@),
{
    let mut call = owned(ffi);
    push_str(&mut call, "(");
    push_str(&mut call, args);
    push_str(&mut call, ")");
    match &m.ret {
        MethodReturn::Void => {
            let mut s = owned("        unsafe { ");
            push_str(&mut s, call.as_str());
            push_str(&mut s, " }\n");
            s
        },
        MethodReturn::Value(t) => value_body(m, t, call.as_str(), has_lifetimes),
        MethodReturn::Result { ok, err_type, handle_or_null } => match ok {
            None => {
                let mut s = owned("        let mut __err: *mut core::ffi::c_void = core::ptr::null_mut();\n");
                push_str(&mut s, "        let __r = unsafe { ");
                push_str(&mut s, err_call_string(ffi, args).as_str());
                push_str(&mut s, " };\n");
                push_str(&mut s, "        if __r == 0 { Ok(()) } else { ");
                push_str(&mut s, err_value_string(err_type.as_str()).as_str());
                push_str(&mut s, " }\n");
                s
            },
            Some(t) => result_body(m, t, err_type.as_str(), *handle_or_null, ffi, args, has_lifetimes, error_result_fn),
        },
    }
}

/// Writes the body of a safe wrapper method.
pub fn emit_method_body(
    out: &mut String,
    m: &ClientMethod,
    ffi_name: &str,
    is_builder_type: bool,
    has_lifetimes: bool,
    error_result_fn: &str,
)
    ensures
        final(out)@ == old(out)@ + method_body_text(*m, ffi_name@, is_builder_type, has_lifetimes, error_result_fn@),
{
    let ghost o0 = out@;
    if m.receiver == Receiver::Value {
        if is_builder_type {
            push_str(out, "        let mut __handle = { let this = std::mem::ManuallyDrop::new(self); this.0 };\n");
        } else {
            push_str(out, "        let __handle = { let this = std::mem::ManuallyDrop::new(self); this.0 };\n");
        }
    }
    let ghost o1 = out@;
    assert(o1 =~= o0 + handle_line(m.receiver, is_builder_type));
    emit_slice_pre_bindings(out, m.params.as_slice(), "        ");
    let args = call_args(m.receiver, is_builder_type, m.params.as_slice());
    let body = call_body(m, ffi_name, args.as_str(), has_lifetimes, error_result_fn);
    push_str(out, body.as_str());
    assert(out@ =~= o0 + method_body_text(*m, ffi_name@, is_builder_type, has_lifetimes, error_result_fn@));
}

// ---------------------------------------------------------------------------
// Wrapper methods
// ---------------------------------------------------------------------------

/// `#[doc = "..."]` attributes for the doc lines.
pub open spec fn doc_attrs_text(docs: Seq<Seq<char>>, indent: Seq<char>) -> Seq<char>
    decreases docs.len(),
{
    if docs.len() == 0 {
        Seq::empty()
    } else {
        doc_attrs_text(docs.drop_last(), indent) + indent + "#[doc = \""@ + escape_doc(docs.last()) + "\"]\n"@
    }
}

/// The signature line of a safe wrapper.
pub open spec fn wrapper_sig_text(m: ClientMethod) -> Seq<char> {
    "    pub fn "@ + m.name@ + method_lifetimes_text(strings_view(m.method_lifetimes@)) + "("@ + receiver_text(m.receiver)
        + join_spec(param_sigs(m.params@), ", "@) + ")"@ + wrapper_return_text(m.ret, m.receiver, m.is_builder) + " {\n"@
}

/// A safe wrapper method: its doc, signature and body.
#[verifier::opaque]
pub open spec fn method_wrapper_text(
    m: ClientMethod,
    ffi: Seq<char>,
    is_builder_type: bool,
    has_lifetimes: bool,
    error_result_fn: Seq<char>,
) -> Seq<char> {
    doc_attrs_text(strings_view(m.doc@), "    "@) + wrapper_sig_text(m) + method_body_text(
        m,
        ffi,
        is_builder_type,
        has_lifetimes,
        error_result_fn,
    ) + "    }\n"@
}

pub(crate) fn emit_doc_attrs(out: &mut String, docs: &Vec<String>, indent: &str)
    ensures
        final(out)@ == old(out)@ + doc_attrs_text(strings_view(docs@), indent@),
{
    let ghost o0 = out@;
    let ghost dv = strings_view(docs@);
    let mut i: usize = 0;
    assert(dv.take(0) =~= Seq::<Seq<char>>::empty());
    while i < docs.len()
        invariant
            i <= docs@.len(),
            dv == strings_view(docs@),
            out@ == o0 + doc_attrs_text(dv.take(i as int), indent@),
        decreases docs@.len() - i,
    {
        let esc = escape_doc_line(docs[i].as_str());
        push_str(out, indent);
        push_str(out, "#[doc = \"");
        push_str(out, esc.as_str());
        push_str(out, "\"]\n");
        i = i + 1;
        assert(dv.take(i as int).drop_last() =~= dv.take(i - 1));
        assert(dv.take(i as int).last() == docs@[i - 1]@);
        assert(out@ =~= o0 + doc_attrs_text(dv.take(i as int), indent@));
    }
    assert(dv.take(docs@.len() as int) =~= dv);
}

fn wrapper_sig(m: &ClientMethod) -> (r: String)
    ensures
        r@ == wrapper_sig_text(*m),
{
    let sigs = param_sigs_of(m.params.as_slice());
    let list = join_strings(sigs.as_slice(), ", ");
    let mut s = owned("    pub fn ");
    push_str(&mut s, m.name.as_str());
    push_str(&mut s, method_lifetimes(&m.method_lifetimes).as_str());
    push_str(&mut s, "(");
    push_str(&mut s, receiver_str(m.receiver));
    push_str(&mut s, list.as_str());
    push_str(&mut s, ")");
    push_str(&mut s, build_wrapper_return_type(&m.ret, m.receiver, m.is_builder).as_str());
    push_str(&mut s, " {\n");
    s
}

/// Writes a safe wrapper method.
pub fn emit_method_wrapper(
    out: &mut String,
    m: &ClientMethod,
    ffi_name: &str,
    is_builder_type: bool,
    has_lifetimes: bool,
    error_result_fn: &str,
)
    ensures
        final(out)@ == old(out)@ + method_wrapper_text(*m, ffi_name@, is_builder_type, has_lifetimes, error_result_fn@),
{
    let ghost o0 = out@;
    emit_doc_attrs(out, &m.doc, "    ");
    push_str(out, wrapper_sig(m).as_str());
    emit_method_body(out, m, ffi_name, is_builder_type, has_lifetimes, error_result_fn);
    push_str(out, "    }\n");
    reveal(method_wrapper_text);
    assert(out@ =~= o0 + method_wrapper_text(*m, ffi_name@, is_builder_type, has_lifetimes, error_result_fn@));
}

} // verus!
