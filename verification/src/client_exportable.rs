//! The client side of an exported type, for Rust code that links the
//! library through its C ABI: the `extern "C"` declarations (the destroy
//! function and one per method), the handle-holding struct with its raw
//! conversions, `FfiType` (for a type without lifetimes), `Debug` and
//! `Drop`, and one safe wrapper per method that converts the arguments,
//! calls the C function and converts what comes back. Also the client side
//! of an error type: an enum decoded from the library's error values.

use vstd::prelude::*;
use crate::convert::MetaReceiver;
use crate::text::{join_spec, join_strings, owned, push_str, strings_view};

verus! {

// ---------------------------------------------------------------------------
// The metadata
// ---------------------------------------------------------------------------

/// How a parameter is passed.
pub enum ClientParamKind {
    /// `&str`, passed as bytes.
    SliceStr,
    /// `&[u8]`, passed as bytes.
    SliceBytes,
    /// `&std::path::Path`, passed as bytes.
    SlicePath,
    /// `&[&str]`, passed as a pointer to bytes and a length.
    StrSlice,
    /// A borrowed handle.
    HandleRef,
    /// An `impl Trait`, passed as a raw handle.
    DynDispatch,
    /// A primitive, by value.
    Primitive,
    /// A handle, by value.
    Handle,
    /// Another value converted through `FfiType`.
    Other,
}

/// A parameter of an exported method.
pub struct ClientParamMeta {
    pub name: String,
    pub kind: ClientParamKind,
    /// Its Rust type, as text (for the kinds that do not fix it).
    pub rust_type: String,
    /// Its C type in the extern declaration, as text.
    pub c_type: String,
}

/// How a returned value comes back.
pub enum ClientValueKind {
    Primitive,
    Handle,
    Other,
    SliceStr,
    SliceBytes,
    SlicePath,
}

/// The ok value of a `Result`: its C type as an out-parameter, how it comes
/// back, and the Rust ok type (as text).
pub struct ClientOkMeta {
    pub out_c_type: String,
    pub kind: ClientValueKind,
    pub ok_type: String,
}

/// What an exported method returns.
pub enum ClientRetMeta {
    Void,
    /// A value: its C type and how it comes back.
    Value { c_type: String, kind: ClientValueKind },
    /// A `Result`: its ok value (none for `()` or a builder's `Self`) and the
    /// error type's name.
    Result { ok: Option<ClientOkMeta>, err_ident: String },
}

/// An exported method.
pub struct ClientMethodMeta {
    pub name: String,
    /// Its C name without the library's function prefix.
    pub ffi_name: String,
    pub receiver: MetaReceiver,
    pub is_builder: bool,
    pub method_lifetimes: Vec<String>,
    pub doc: Vec<String>,
    pub params: Vec<ClientParamMeta>,
    pub ret: ClientRetMeta,
    /// The Rust return type, as text (empty for `()`).
    pub rust_ret: String,
}

/// An exported type.
pub struct ExportableClientMeta {
    pub struct_name: String,
    /// The library's function prefix, such as `ex_`.
    pub fn_pfx: String,
    /// The type's lifetime parameters, without `'`.
    pub lifetimes: Vec<String>,
    pub methods: Vec<ClientMethodMeta>,
}

// ---------------------------------------------------------------------------
// Parameters
// ---------------------------------------------------------------------------

/// The items a parameter adds to the extern declaration.
pub open spec fn extern_items(p: ClientParamMeta) -> Seq<Seq<char>> {
    match p.kind {
        ClientParamKind::StrSlice => seq![p.name@ + ": "@ + p.c_type@, p.name@ + "_len: usize"@],
        _ => seq![p.name@ + ": "@ + p.c_type@],
    }
}

/// The extern items of the parameters, in order.
pub open spec fn extern_param_items(ps: Seq<ClientParamMeta>) -> Seq<Seq<char>>
    decreases ps.len(),
{
    if ps.len() == 0 {
        Seq::empty()
    } else {
        extern_param_items(ps.drop_last()) + extern_items(ps.last())
    }
}

/// The parameter of the safe wrapper.
pub open spec fn wrapper_param(p: ClientParamMeta) -> Seq<char> {
    p.name@ + ": "@ + match p.kind {
        ClientParamKind::SliceStr => "&str"@,
        ClientParamKind::SliceBytes => "&[u8]"@,
        ClientParamKind::SlicePath => "&std::path::Path"@,
        ClientParamKind::StrSlice => "&[&str]"@,
        _ => p.rust_type@,
    }
}

/// The argument the wrapper passes to the C function for a parameter.
pub open spec fn wrapper_arg(p: ClientParamMeta) -> Seq<char> {
    let id = p.name@;
    match p.kind {
        ClientParamKind::SliceStr => "ffier::FfierBytes::from_str("@ + id + ")"@,
        ClientParamKind::SliceBytes => "ffier::FfierBytes::from_bytes("@ + id + ")"@,
        ClientParamKind::SlicePath => "ffier::FfierBytes::from_path("@ + id + ")"@,
        ClientParamKind::StrSlice => "__ffi_strs.as_ptr(), __ffi_strs.len()"@,
        ClientParamKind::HandleRef => id + ".0"@,
        ClientParamKind::DynDispatch => id + ".__into_raw_handle()"@,
        ClientParamKind::Primitive => id,
        _ => "<"@ + p.rust_type@ + " as ffier::FfiType>::into_c("@ + id + ")"@,
    }
}

/// The bytes of each `&str` of a `&[&str]` parameter, bound before the call.
pub open spec fn pre_bindings(ps: Seq<ClientParamMeta>) -> Seq<char>
    decreases ps.len(),
{
    if ps.len() == 0 {
        Seq::empty()
    } else {
        pre_bindings(ps.drop_last()) + match ps.last().kind {
            ClientParamKind::StrSlice => "        let __ffi_strs: Vec<ffier::FfierBytes> = "@ + ps.last().name@
                + ".iter().map(|s| unsafe { ffier::FfierBytes::from_str(s) }).collect();\n"@,
            _ => Seq::empty(),
        }
    }
}

/// The wrapper arguments, in order.
pub open spec fn wrapper_args(ps: Seq<ClientParamMeta>) -> Seq<Seq<char>> {
    ps.map_values(|p: ClientParamMeta| wrapper_arg(p))
}

// ---------------------------------------------------------------------------
// Returns
// ---------------------------------------------------------------------------

/// `<T>::__from_raw(x)` for a type with a lifetime (it has no `FfiType`),
/// else `<T as ffier::FfiType>::from_c(x)`.
pub open spec fn handle_from(t: Seq<char>, x: Seq<char>) -> Seq<char> {
    if t.contains('\'') {
        "<"@ + t + ">::__from_raw("@ + x + ")"@
    } else {
        "<"@ + t + " as ffier::FfiType>::from_c("@ + x + ")"@
    }
}

/// The Rust value made of a returned C value `x` of the given kind and Rust
/// type.
pub open spec fn value_from(k: ClientValueKind, t: Seq<char>, x: Seq<char>) -> Seq<char> {
    match k {
        ClientValueKind::Primitive => x,
        ClientValueKind::Handle => handle_from(t, x),
        ClientValueKind::Other => "<"@ + t + " as ffier::FfiType>::from_c("@ + x + ")"@,
        ClientValueKind::SliceStr => "unsafe { core::str::from_utf8_unchecked(core::slice::from_raw_parts("@ + x + ".data, "@ + x + ".len)) }"@,
        ClientValueKind::SliceBytes => "unsafe { core::slice::from_raw_parts("@ + x + ".data, "@ + x + ".len) }"@,
        ClientValueKind::SlicePath => "unsafe { "@ + x + ".as_path() }"@,
    }
}

/// Whether the out-parameter of an ok value of this kind is bytes.
pub open spec fn bytes_kind(k: ClientValueKind) -> bool {
    k is SliceStr || k is SliceBytes || k is SlicePath
}

/// The declaration of the out-parameter's storage.
pub open spec fn out_decl(k: ClientValueKind) -> Seq<char> {
    if bytes_kind(k) {
        "let mut __out = ffier::FfierBytes::EMPTY;"@
    } else {
        "let mut __out = std::mem::MaybeUninit::uninit();"@
    }
}

/// The pointer to the out-parameter's storage.
pub open spec fn out_ptr(k: ClientValueKind) -> Seq<char> {
    if bytes_kind(k) {
        "&mut __out"@
    } else {
        "__out.as_mut_ptr()"@
    }
}

/// The ok value read back from the out-parameter.
pub open spec fn ok_value(o: ClientOkMeta) -> Seq<char> {
    if bytes_kind(o.kind) {
        value_from(o.kind, o.ok_type@, "__out"@)
    } else {
        value_from(o.kind, o.ok_type@, "unsafe { __out.assume_init() }"@)
    }
}

// ---------------------------------------------------------------------------
// A method
// ---------------------------------------------------------------------------

/// The handle is passed through a pointer: a builder that takes `self`.
pub open spec fn indirect(m: ClientMethodMeta) -> bool {
    m.is_builder && m.receiver == MetaReceiver::Value
}

/// The C function's name.
pub open spec fn c_fn_name(e: ExportableClientMeta, m: ClientMethodMeta) -> Seq<char> {
    e.fn_pfx@ + m.ffi_name@
}

/// The items of the extern declaration of a method.
pub open spec fn extern_decl_items(m: ClientMethodMeta) -> Seq<Seq<char>> {
    let handle = if m.receiver == MetaReceiver::NoSelf {
        Seq::<Seq<char>>::empty()
    } else if indirect(m) {
        seq!["handle: *mut *mut core::ffi::c_void"@]
    } else {
        seq!["handle: *mut core::ffi::c_void"@]
    };
    let out = match m.ret {
        ClientRetMeta::Result { ok: Some(o), .. } => seq!["result: "@ + o.out_c_type@],
        _ => Seq::<Seq<char>>::empty(),
    };
    handle + extern_param_items(m.params@) + out
}

/// The extern declaration of a method.
pub open spec fn extern_decl(e: ExportableClientMeta, m: ClientMethodMeta) -> Seq<char> {
    "    pub fn "@ + c_fn_name(e, m) + "("@ + join_spec(extern_decl_items(m), ", "@) + ")"@ + match m.ret {
        ClientRetMeta::Void => Seq::empty(),
        ClientRetMeta::Value { c_type, .. } => " -> "@ + c_type@,
        ClientRetMeta::Result { .. } => " -> ffier::FfierError"@,
    } + ";\n"@
}

/// `<'a, 'b>`, or nothing without lifetimes.
pub open spec fn generics(lts: Seq<Seq<char>>) -> Seq<char> {
    if lts.len() == 0 {
        Seq::empty()
    } else {
        "<"@ + join_spec(lts.map_values(|l: Seq<char>| "'"@ + l), ", "@) + ">"@
    }
}

/// The wrapper's receiver, if it has one.
pub open spec fn receiver_items(r: MetaReceiver) -> Seq<Seq<char>> {
    match r {
        MetaReceiver::NoSelf => Seq::empty(),
        MetaReceiver::Value => seq!["self"@],
        MetaReceiver::Mut => seq!["&mut self"@],
        MetaReceiver::Ref => seq!["&self"@],
    }
}

/// The wrapper's return annotation.
pub open spec fn wrapper_ret(m: ClientMethodMeta) -> Seq<char> {
    match m.ret {
        ClientRetMeta::Void => if m.is_builder {
            " -> Self"@
        } else {
            Seq::empty()
        },
        ClientRetMeta::Value { .. } => if m.rust_ret@.len() == 0 {
            Seq::empty()
        } else {
            " -> "@ + m.rust_ret@
        },
        ClientRetMeta::Result { ok, err_ident } => if m.is_builder {
            " -> Result<Self, "@ + err_ident@ + ">"@
        } else {
            match ok {
                None => " -> Result<(), "@ + err_ident@ + ">"@,
                Some(_) => " -> "@ + m.rust_ret@,
            }
        },
    }
}

/// The handle taken out of `self` without dropping it.
pub open spec fn take_handle(binding: Seq<char>) -> Seq<char> {
    "        "@ + binding + " = {\n"@ + "            let this = std::mem::ManuallyDrop::new(self);\n"@ + "            this.0\n"@ + "        };\n"@
}

/// The call of the C function and the conversion of its result, given the
/// leading handle argument (if any).
pub open spec fn call_body(ffi: Seq<char>, m: ClientMethodMeta, handle: Seq<Seq<char>>) -> Seq<char> {
    let args = handle + wrapper_args(m.params@);
    let pre = pre_bindings(m.params@);
    match m.ret {
        ClientRetMeta::Void => pre + "        unsafe { "@ + ffi + "("@ + join_spec(args, ", "@) + ") }\n"@,
        ClientRetMeta::Value { kind, .. } => pre + "        let __raw = unsafe { "@ + ffi + "("@ + join_spec(args, ", "@) + ") };\n"@
            + "        "@ + value_from(kind, m.rust_ret@, "__raw"@) + "\n"@,
        ClientRetMeta::Result { ok, err_ident } => match ok {
            None => pre + "        let __err = unsafe { "@ + ffi + "("@ + join_spec(args, ", "@) + ") };\n"@
                + "        if __err.code == 0 { Ok(()) } else { Err("@ + err_ident@ + "::from_ffi(__err)) }\n"@,
            Some(o) => pre + "        "@ + out_decl(o.kind) + "\n"@ + "        let __err = unsafe { "@ + ffi + "("@ + join_spec(
                args.push(out_ptr(o.kind)),
                ", "@,
            ) + ") };\n"@ + "        if __err.code == 0 { Ok("@ + ok_value(o) + ") } else { Err("@ + err_ident@ + "::from_ffi(__err)) }\n"@,
        },
    }
}

/// The body of a builder that takes `self`: the handle is lent to the C
/// function, which may replace it, and comes back as the new value.
pub open spec fn builder_body(e: ExportableClientMeta, m: ClientMethodMeta) -> Seq<char> {
    let ffi = c_fn_name(e, m);
    let args = seq!["&mut __handle"@] + wrapper_args(m.params@);
    let pi = if e.lifetimes@.len() == 0 {
        Seq::empty()
    } else {
        ", std::marker::PhantomData"@
    };
    match m.ret {
        ClientRetMeta::Void => take_handle("let mut __handle"@) + pre_bindings(m.params@) + "        unsafe { "@ + ffi + "("@ + join_spec(args, ", "@)
            + ") };\n"@ + "        Self(__handle"@ + pi + ")\n"@,
        ClientRetMeta::Result { ok: None, err_ident } => take_handle("let mut __handle"@) + pre_bindings(m.params@)
            + "        let __err = unsafe { "@ + ffi + "("@ + join_spec(args, ", "@) + ") };\n"@ + "        if __err.code == 0 {\n"@
            + "            Ok(Self(__handle"@ + pi + "))\n"@ + "        } else {\n"@ + "            Err("@ + err_ident@ + "::from_ffi(__err))\n"@
            + "        }\n"@,
        _ => "        compile_error!(\"unexpected builder return kind\")\n"@,
    }
}

/// The body of a method's wrapper.
pub open spec fn method_body(e: ExportableClientMeta, m: ClientMethodMeta) -> Seq<char> {
    let ffi = c_fn_name(e, m);
    if indirect(m) {
        builder_body(e, m)
    } else if m.receiver == MetaReceiver::Value {
        take_handle("let __handle"@) + call_body(ffi, m, seq!["__handle"@])
    } else if m.receiver == MetaReceiver::NoSelf {
        call_body(ffi, m, Seq::empty())
    } else {
        call_body(ffi, m, seq!["self.0"@])
    }
}

/// A wrapper of a method returning `Result<(), E>` (other than a builder
/// that takes `self`) ends by answering `Ok(())` exactly when the error the
/// C function returned has code 0, and `Err(E::from_ffi(..))` otherwise.
pub proof fn lemma_unit_result_by_code(e: ExportableClientMeta, m: ClientMethodMeta) -> (pre: Seq<char>)
    requires
        !indirect(m),
        m.ret matches ClientRetMeta::Result { ok: None, .. },
    ensures
        method_body(e, m) == pre + "        if __err.code == 0 { Ok(()) } else { Err("@ + m.ret->err_ident@ + "::from_ffi(__err)) }\n"@,
{
    let ffi = c_fn_name(e, m);
    let err = m.ret->err_ident@;
    let tail = "        if __err.code == 0 { Ok(()) } else { Err("@ + err + "::from_ffi(__err)) }\n"@;
    let handle = if m.receiver == MetaReceiver::Value {
        seq!["__handle"@]
    } else if m.receiver == MetaReceiver::NoSelf {
        Seq::<Seq<char>>::empty()
    } else {
        seq!["self.0"@]
    };
    let args = handle + wrapper_args(m.params@);
    let head = pre_bindings(m.params@) + "        let __err = unsafe { "@ + ffi + "("@ + join_spec(args, ", "@) + ") };\n"@;
    assert(call_body(ffi, m, handle) =~= head + tail);
    if m.receiver == MetaReceiver::Value {
        let tk = take_handle("let __handle"@);
        assert(method_body(e, m) =~= (tk + head) + tail);
        tk + head
    } else {
        head
    }
}

/// A wrapper of a method returning `Result<T, E>` (other than a builder
/// that takes `self`) ends by answering `Ok` with the value read from the
/// out-parameter exactly when the error the C function returned has code
/// 0, and `Err(E::from_ffi(..))` otherwise.
pub proof fn lemma_value_result_by_code(e: ExportableClientMeta, m: ClientMethodMeta) -> (parts: (Seq<char>, Seq<char>))
    requires
        !indirect(m),
        m.ret matches ClientRetMeta::Result { ok: Some(_), .. },
    ensures
        method_body(e, m) == parts.0 + "        if __err.code == 0 { Ok("@ + parts.1 + ") } else { Err("@ + m.ret->err_ident@
            + "::from_ffi(__err)) }\n"@,
        parts.1 == ok_value(m.ret->ok.unwrap()),
{
    let ffi = c_fn_name(e, m);
    let err = m.ret->err_ident@;
    let o = m.ret->ok.unwrap();
    let handle = if m.receiver == MetaReceiver::Value {
        seq!["__handle"@]
    } else if m.receiver == MetaReceiver::NoSelf {
        Seq::<Seq<char>>::empty()
    } else {
        seq!["self.0"@]
    };
    let args = handle + wrapper_args(m.params@);
    let head = pre_bindings(m.params@) + "        "@ + out_decl(o.kind) + "\n"@ + "        let __err = unsafe { "@ + ffi + "("@ + join_spec(
        args.push(out_ptr(o.kind)),
        ", "@,
    ) + ") };\n"@;
    let tail = "        if __err.code == 0 { Ok("@ + ok_value(o) + ") } else { Err("@ + err + "::from_ffi(__err)) }\n"@;
    assert(call_body(ffi, m, handle) =~= head + tail);
    if m.receiver == MetaReceiver::Value {
        let tk = take_handle("let __handle"@);
        assert(method_body(e, m) =~= (tk + head) + tail);
        (tk + head, ok_value(o))
    } else {
        (head, ok_value(o))
    }
}

/// A builder that takes `self` and returns `Result<Self, E>` hands back
/// the handle the C function left as the new value exactly when the error
/// it returned has code 0, and `Err(E::from_ffi(..))` otherwise.
pub proof fn lemma_builder_result_by_code(e: ExportableClientMeta, m: ClientMethodMeta) -> (parts: (Seq<char>, Seq<char>))
    requires
        indirect(m),
        m.ret matches ClientRetMeta::Result { ok: None, .. },
    ensures
        method_body(e, m) == parts.0 + "        if __err.code == 0 {\n"@ + "            Ok(Self(__handle"@ + parts.1 + "))\n"@ + "        } else {\n"@
            + "            Err("@ + m.ret->err_ident@ + "::from_ffi(__err))\n"@ + "        }\n"@,
        parts.1 == Seq::<char>::empty() || parts.1 == ", std::marker::PhantomData"@,
{
    let ffi = c_fn_name(e, m);
    let args = seq!["&mut __handle"@] + wrapper_args(m.params@);
    let pi = if e.lifetimes@.len() == 0 {
        Seq::empty()
    } else {
        ", std::marker::PhantomData"@
    };
    let head = take_handle("let mut __handle"@) + pre_bindings(m.params@) + "        let __err = unsafe { "@ + ffi + "("@ + join_spec(args, ", "@)
        + ") };\n"@;
    assert(method_body(e, m) =~= head + "        if __err.code == 0 {\n"@ + "            Ok(Self(__handle"@ + pi + "))\n"@ + "        } else {\n"@
        + "            Err("@ + m.ret->err_ident@ + "::from_ffi(__err))\n"@ + "        }\n"@);
    (head, pi)
}

/// The doc comment lines of a method.
pub open spec fn doc_lines(doc: Seq<Seq<char>>) -> Seq<char>
    decreases doc.len(),
{
    if doc.len() == 0 {
        Seq::empty()
    } else {
        doc_lines(doc.drop_last()) + "    ///"@ + doc.last() + "\n"@
    }
}

/// The safe wrapper of a method.
pub open spec fn wrapper_text(e: ExportableClientMeta, m: ClientMethodMeta) -> Seq<char> {
    doc_lines(strings_view(m.doc@)) + "    pub fn "@ + m.name@ + generics(strings_view(m.method_lifetimes@)) + "("@ + join_spec(
        receiver_items(m.receiver) + m.params@.map_values(|p: ClientParamMeta| wrapper_param(p)),
        ", "@,
    ) + ")"@ + wrapper_ret(m) + " {\n"@ + method_body(e, m) + "    }\n"@
}

// ---------------------------------------------------------------------------
// The type
// ---------------------------------------------------------------------------

/// What is written for each method, by kind: 0 its extern declaration, 1
/// its wrapper.
pub open spec fn method_part(kind: int, e: ExportableClientMeta, m: ClientMethodMeta) -> Seq<char> {
    if kind == 0 {
        extern_decl(e, m)
    } else {
        wrapper_text(e, m)
    }
}

/// The parts of the given kind for the methods, in order.
pub open spec fn method_parts(kind: int, e: ExportableClientMeta, ms: Seq<ClientMethodMeta>) -> Seq<char>
    decreases ms.len(),
{
    if ms.len() == 0 {
        Seq::empty()
    } else {
        method_parts(kind, e, ms.drop_last()) + method_part(kind, e, ms.last())
    }
}

/// The struct's phantom field for its lifetimes.
pub open spec fn phantom(lts: Seq<Seq<char>>) -> Seq<char> {
    if lts.len() == 0 {
        Seq::empty()
    } else {
        ", std::marker::PhantomData<("@ + join_spec(lts.map_values(|l: Seq<char>| "&'"@ + l + " ()"@), ", "@) + ")>"@
    }
}

/// `Self(x` with the phantom value when the type has lifetimes.
pub open spec fn phantom_init(lts: Seq<Seq<char>>) -> Seq<char> {
    if lts.len() == 0 {
        Seq::empty()
    } else {
        ", std::marker::PhantomData"@
    }
}

/// The destroy function's C name.
pub open spec fn destroy_name(e: ExportableClientMeta) -> Seq<char> {
    e.fn_pfx@ + crate::naming::camel_to_snake_spec(e.struct_name@) + "_destroy"@
}

/// The extern block: the destroy function, then each method's function.
pub open spec fn extern_block(e: ExportableClientMeta) -> Seq<char> {
    "unsafe extern \"C\" {\n"@ + "    pub fn "@ + destroy_name(e) + "(handle: *mut core::ffi::c_void);\n"@ + method_parts(0, e, e.methods@) + "}\n\n"@
}

/// The struct holding the handle, with its raw conversions, and its
/// `FfiType` impl when it has no lifetimes.
pub open spec fn struct_part(e: ExportableClientMeta) -> Seq<char> {
    let n = e.struct_name@;
    let lts = strings_view(e.lifetimes@);
    let g = generics(lts);
    "pub struct "@ + n + g + "(*mut core::ffi::c_void"@ + phantom(lts) + ");\n\n"@ + "impl"@ + g + " "@ + n + g + " {\n"@ + "    #[doc(hidden)]\n"@
        + "    pub fn __from_raw(ptr: *mut core::ffi::c_void) -> Self {\n"@ + "        Self(ptr"@ + phantom_init(lts) + ")\n"@ + "    }\n\n"@
        + "    #[doc(hidden)]\n"@ + "    pub fn __into_raw(self) -> *mut core::ffi::c_void {\n"@
        + "        let this = std::mem::ManuallyDrop::new(self);\n"@ + "        this.0\n"@ + "    }\n"@ + "}\n\n"@ + if lts.len() == 0 {
        "impl ffier::FfiType for "@ + n + " {\n"@ + "    type CRepr = *mut core::ffi::c_void;\n"@ + "    const C_TYPE_NAME: &str = \"\";\n"@
            + "    fn into_c(self) -> *mut core::ffi::c_void { self.__into_raw() }\n"@
            + "    fn from_c(repr: *mut core::ffi::c_void) -> Self { Self::__from_raw(repr) }\n"@ + "}\n\n"@
    } else {
        Seq::empty()
    }
}

/// `Debug`, the wrappers, and `Drop` (which destroys the handle).
pub open spec fn impls_part(e: ExportableClientMeta) -> Seq<char> {
    let n = e.struct_name@;
    let g = generics(strings_view(e.lifetimes@));
    "impl"@ + g + " std::fmt::Debug for "@ + n + g + " {\n"@ + "    fn fmt(&self, f: &mut std::fmt::Formatter<'_>) -> std::fmt::Result {\n"@
        + "        f.debug_tuple(\""@ + n + "\").field(&self.0).finish()\n"@ + "    }\n"@ + "}\n\n"@ + "impl"@ + g + " "@ + n + g + " {\n"@
        + method_parts(1, e, e.methods@) + "}\n\n"@ + "impl"@ + g + " Drop for "@ + n + g + " {\n"@ + "    fn drop(&mut self) {\n"@
        + "        unsafe { "@ + destroy_name(e) + "(self.0) }\n"@ + "    }\n"@ + "}\n"@
}

/// The whole client text of an exported type.
pub open spec fn exportable_client_spec(e: ExportableClientMeta) -> Seq<char> {
    extern_block(e) + struct_part(e) + impls_part(e)
}

// ---------------------------------------------------------------------------
// Writing the text
// ---------------------------------------------------------------------------

fn push_item(out: &mut Vec<String>, item: String)
    ensures
        strings_view(final(out)@) == strings_view(old(out)@).push(item@),
{
    let ghost before = out@;
    out.push(item);
    assert(strings_view(out@) =~= strings_view(before).push(item@));
}

fn wrapper_arg_of(p: &ClientParamMeta) -> (r: String)
    ensures
        r@ == wrapper_arg(*p),
{
    let id = p.name.as_str();
    let mut s = String::new();
    match p.kind {
        ClientParamKind::SliceStr => {
            push_str(&mut s, "ffier::FfierBytes::from_str(");
            push_str(&mut s, id);
            push_str(&mut s, ")");
        },
        ClientParamKind::SliceBytes => {
            push_str(&mut s, "ffier::FfierBytes::from_bytes(");
            push_str(&mut s, id);
            push_str(&mut s, ")");
        },
        ClientParamKind::SlicePath => {
            push_str(&mut s, "ffier::FfierBytes::from_path(");
            push_str(&mut s, id);
            push_str(&mut s, ")");
        },
        ClientParamKind::StrSlice => {
            push_str(&mut s, "__ffi_strs.as_ptr(), __ffi_strs.len()");
        },
        ClientParamKind::HandleRef => {
            push_str(&mut s, id);
            push_str(&mut s, ".0");
        },
        ClientParamKind::DynDispatch => {
            push_str(&mut s, id);
            push_str(&mut s, ".__into_raw_handle()");
        },
        ClientParamKind::Primitive => {
            push_str(&mut s, id);
        },
        _ => {
            push_str(&mut s, "<");
            push_str(&mut s, p.rust_type.as_str());
            push_str(&mut s, " as ffier::FfiType>::into_c(");
            push_str(&mut s, id);
            push_str(&mut s, ")");
        },
    }
    assert(s@ =~= wrapper_arg(*p));
    s
}

fn wrapper_param_of(p: &ClientParamMeta) -> (r: String)
    ensures
        r@ == wrapper_param(*p),
{
    let mut s = owned(p.name.as_str());
    push_str(&mut s, ": ");
    match p.kind {
        ClientParamKind::SliceStr => push_str(&mut s, "&str"),
        ClientParamKind::SliceBytes => push_str(&mut s, "&[u8]"),
        ClientParamKind::SlicePath => push_str(&mut s, "&std::path::Path"),
        ClientParamKind::StrSlice => push_str(&mut s, "&[&str]"),
        _ => push_str(&mut s, p.rust_type.as_str()),
    }
    s
}

/// Appends the wrapper arguments (`args`) or wrapper parameters (`!args`).
fn push_param_items(v: &mut Vec<String>, ps: &Vec<ClientParamMeta>, args: bool)
    ensures
        args ==> strings_view(final(v)@) == strings_view(old(v)@) + wrapper_args(ps@),
        !args ==> strings_view(final(v)@) == strings_view(old(v)@) + ps@.map_values(|p: ClientParamMeta| wrapper_param(p)),
{
    let ghost v0 = strings_view(v@);
    let ghost want = if args {
        wrapper_args(ps@)
    } else {
        ps@.map_values(|p: ClientParamMeta| wrapper_param(p))
    };
    let mut i: usize = 0;
    assert(strings_view(v@) =~= v0 + want.take(0));
    while i < ps.len()
        invariant
            i <= ps@.len(),
            want.len() == ps@.len(),
            forall|j: int| 0 <= j < ps@.len() ==> #[trigger] want[j] == if args {
                wrapper_arg(ps@[j])
            } else {
                wrapper_param(ps@[j])
            },
            strings_view(v@) == v0 + want.take(i as int),
        decreases ps@.len() - i,
    {
        let it = if args {
            wrapper_arg_of(&ps[i])
        } else {
            wrapper_param_of(&ps[i])
        };
        assert(want[i as int] == it@);
        push_item(v, it);
        i = i + 1;
        assert(strings_view(v@) =~= v0 + want.take(i as int));
    }
    assert(want.take(ps@.len() as int) =~= want);
}

fn push_extern_items(v: &mut Vec<String>, ps: &Vec<ClientParamMeta>)
    ensures
        strings_view(final(v)@) == strings_view(old(v)@) + extern_param_items(ps@),
{
    let ghost v0 = strings_view(v@);
    let mut i: usize = 0;
    assert(ps@.take(0) =~= Seq::<ClientParamMeta>::empty());
    assert(strings_view(v@) =~= v0 + extern_param_items(ps@.take(0)));
    while i < ps.len()
        invariant
            i <= ps@.len(),
            strings_view(v@) == v0 + extern_param_items(ps@.take(i as int)),
        decreases ps@.len() - i,
    {
        let p = &ps[i];
        let mut a = owned(p.name.as_str());
        push_str(&mut a, ": ");
        push_str(&mut a, p.c_type.as_str());
        push_item(v, a);
        match p.kind {
            ClientParamKind::StrSlice => {
                let mut b = owned(p.name.as_str());
                push_str(&mut b, "_len: usize");
                push_item(v, b);
            },
            _ => {},
        }
        assert(ps@.take(i + 1).drop_last() =~= ps@.take(i as int));
        assert(ps@.take(i + 1).last() == ps@[i as int]);
        i = i + 1;
        assert(strings_view(v@) =~= v0 + extern_param_items(ps@.take(i as int)));
    }
    assert(ps@.take(ps@.len() as int) =~= ps@);
}

fn pre_bindings_of(ps: &Vec<ClientParamMeta>) -> (r: String)
    ensures
        r@ == pre_bindings(ps@),
{
    let mut s = String::new();
    let mut i: usize = 0;
    assert(ps@.take(0) =~= Seq::<ClientParamMeta>::empty());
    while i < ps.len()
        invariant
            i <= ps@.len(),
            s@ == pre_bindings(ps@.take(i as int)),
        decreases ps@.len() - i,
    {
        match ps[i].kind {
            ClientParamKind::StrSlice => {
                push_str(&mut s, "        let __ffi_strs: Vec<ffier::FfierBytes> = ");
                push_str(&mut s, ps[i].name.as_str());
                push_str(&mut s, ".iter().map(|s| unsafe { ffier::FfierBytes::from_str(s) }).collect();\n");
            },
            _ => {},
        }
        assert(ps@.take(i + 1).drop_last() =~= ps@.take(i as int));
        assert(ps@.take(i + 1).last() == ps@[i as int]);
        i = i + 1;
    }
    assert(ps@.take(ps@.len() as int) =~= ps@);
    s
}

fn has_quote(t: &str) -> (r: bool)
    ensures
        r == t@.contains('\''),
{
    let v = crate::text::chars_of(t);
    let mut i: usize = 0;
    while i < v.len()
        invariant
            i <= v@.len(),
            v@ == t@,
            forall|j: int| 0 <= j < i ==> v@[j] != '\'',
        decreases v@.len() - i,
    {
        if v[i] == '\'' {
            return true;
        }
        i = i + 1;
    }
    false
}

fn value_from_of(k: &ClientValueKind, t: &str, x: &str) -> (r: String)
    ensures
        r@ == value_from(*k, t@, x@),
{
    let mut s = String::new();
    match k {
        ClientValueKind::Primitive => push_str(&mut s, x),
        ClientValueKind::Handle => {
            if has_quote(t) {
                push_str(&mut s, "<");
                push_str(&mut s, t);
                push_str(&mut s, ">::__from_raw(");
                push_str(&mut s, x);
                push_str(&mut s, ")");
            } else {
                push_str(&mut s, "<");
                push_str(&mut s, t);
                push_str(&mut s, " as ffier::FfiType>::from_c(");
                push_str(&mut s, x);
                push_str(&mut s, ")");
            }
        },
        ClientValueKind::Other => {
            push_str(&mut s, "<");
            push_str(&mut s, t);
            push_str(&mut s, " as ffier::FfiType>::from_c(");
            push_str(&mut s, x);
            push_str(&mut s, ")");
        },
        ClientValueKind::SliceStr => {
            push_str(&mut s, "unsafe { core::str::from_utf8_unchecked(core::slice::from_raw_parts(");
            push_str(&mut s, x);
            push_str(&mut s, ".data, ");
            push_str(&mut s, x);
            push_str(&mut s, ".len)) }");
        },
        ClientValueKind::SliceBytes => {
            push_str(&mut s, "unsafe { core::slice::from_raw_parts(");
            push_str(&mut s, x);
            push_str(&mut s, ".data, ");
            push_str(&mut s, x);
            push_str(&mut s, ".len) }");
        },
        ClientValueKind::SlicePath => {
            push_str(&mut s, "unsafe { ");
            push_str(&mut s, x);
            push_str(&mut s, ".as_path() }");
        },
    }
    assert(s@ =~= value_from(*k, t@, x@));
    s
}

fn is_bytes_kind(k: &ClientValueKind) -> (r: bool)
    ensures
        r == bytes_kind(*k),
{
    match k {
        ClientValueKind::SliceStr | ClientValueKind::SliceBytes | ClientValueKind::SlicePath => true,
        _ => false,
    }
}

fn extern_decl_of(e: &ExportableClientMeta, m: &ClientMethodMeta) -> (r: String)
    ensures
        r@ == extern_decl(*e, *m),
{
    let mut items: Vec<String> = Vec::new();
    if m.receiver != MetaReceiver::NoSelf {
        if m.is_builder && m.receiver == MetaReceiver::Value {
            push_item(&mut items, owned("handle: *mut *mut core::ffi::c_void"));
        } else {
            push_item(&mut items, owned("handle: *mut core::ffi::c_void"));
        }
    }
    push_extern_items(&mut items, &m.params);
    match &m.ret {
        ClientRetMeta::Result { ok: Some(o), .. } => {
            let mut it = owned("result: ");
            push_str(&mut it, o.out_c_type.as_str());
            push_item(&mut items, it);
        },
        _ => {},
    }
    assert(strings_view(items@) =~= extern_decl_items(*m));
    let mut s = owned("    pub fn ");
    push_str(&mut s, e.fn_pfx.as_str());
    push_str(&mut s, m.ffi_name.as_str());
    push_str(&mut s, "(");
    push_str(&mut s, join_strings(items.as_slice(), ", ").as_str());
    push_str(&mut s, ")");
    match &m.ret {
        ClientRetMeta::Void => {},
        ClientRetMeta::Value { c_type, .. } => {
            push_str(&mut s, " -> ");
            push_str(&mut s, c_type.as_str());
        },
        ClientRetMeta::Result { .. } => push_str(&mut s, " -> ffier::FfierError"),
    }
    push_str(&mut s, ";\n");
    assert(s@ =~= extern_decl(*e, *m));
    s
}

fn generics_of(lts: &Vec<String>) -> (r: String)
    ensures
        r@ == generics(strings_view(lts@)),
{
    if lts.len() == 0 {
        return String::new();
    }
    let ghost want = strings_view(lts@).map_values(|l: Seq<char>| "'"@ + l);
    let mut items: Vec<String> = Vec::new();
    let mut i: usize = 0;
    while i < lts.len()
        invariant
            i <= lts@.len(),
            want == strings_view(lts@).map_values(|l: Seq<char>| "'"@ + l),
            strings_view(items@) == want.take(i as int),
        decreases lts@.len() - i,
    {
        let mut it = owned("'");
        push_str(&mut it, lts[i].as_str());
        push_item(&mut items, it);
        i = i + 1;
        assert(strings_view(items@) =~= want.take(i as int));
    }
    assert(want.take(lts@.len() as int) =~= want);
    let mut s = owned("<");
    push_str(&mut s, join_strings(items.as_slice(), ", ").as_str());
    push_str(&mut s, ">");
    s
}

fn phantom_of(lts: &Vec<String>) -> (r: String)
    ensures
        r@ == phantom(strings_view(lts@)),
{
    if lts.len() == 0 {
        return String::new();
    }
    let ghost want = strings_view(lts@).map_values(|l: Seq<char>| "&'"@ + l + " ()"@);
    let mut items: Vec<String> = Vec::new();
    let mut i: usize = 0;
    while i < lts.len()
        invariant
            i <= lts@.len(),
            want == strings_view(lts@).map_values(|l: Seq<char>| "&'"@ + l + " ()"@),
            strings_view(items@) == want.take(i as int),
        decreases lts@.len() - i,
    {
        let mut it = owned("&'");
        push_str(&mut it, lts[i].as_str());
        push_str(&mut it, " ()");
        push_item(&mut items, it);
        i = i + 1;
        assert(strings_view(items@) =~= want.take(i as int));
    }
    assert(want.take(lts@.len() as int) =~= want);
    let mut s = owned(", std::marker::PhantomData<(");
    push_str(&mut s, join_strings(items.as_slice(), ", ").as_str());
    push_str(&mut s, ")>");
    s
}

fn call_body_of(ffi: &str, m: &ClientMethodMeta, handle: Vec<String>) -> (r: String)
    ensures
        r@ == call_body(ffi@, *m, strings_view(handle@)),
{
    let ghost hv = strings_view(handle@);
    let mut args = handle;
    push_param_items(&mut args, &m.params, true);
    let ghost av = strings_view(args@);
    assert(av == hv + wrapper_args(m.params@));
    let pre = pre_bindings_of(&m.params);
    let mut s = pre;
    match &m.ret {
        ClientRetMeta::Void => {
            push_str(&mut s, "        unsafe { ");
            push_str(&mut s, ffi);
            push_str(&mut s, "(");
            push_str(&mut s, join_strings(args.as_slice(), ", ").as_str());
            push_str(&mut s, ") }\n");
        },
        ClientRetMeta::Value { kind, .. } => {
            push_str(&mut s, "        let __raw = unsafe { ");
            push_str(&mut s, ffi);
            push_str(&mut s, "(");
            push_str(&mut s, join_strings(args.as_slice(), ", ").as_str());
            push_str(&mut s, ") };\n");
            push_str(&mut s, "        ");
            push_str(&mut s, value_from_of(kind, m.rust_ret.as_str(), "__raw").as_str());
            push_str(&mut s, "\n");
        },
        ClientRetMeta::Result { ok, err_ident } => match ok {
            None => {
                push_str(&mut s, "        let __err = unsafe { ");
                push_str(&mut s, ffi);
                push_str(&mut s, "(");
                push_str(&mut s, join_strings(args.as_slice(), ", ").as_str());
                push_str(&mut s, ") };\n");
                push_str(&mut s, "        if __err.code == 0 { Ok(()) } else { Err(");
                push_str(&mut s, err_ident.as_str());
                push_str(&mut s, "::from_ffi(__err)) }\n");
            },
            Some(o) => {
                let bytes = is_bytes_kind(&o.kind);
                push_str(&mut s, "        ");
                if bytes {
                    push_str(&mut s, "let mut __out = ffier::FfierBytes::EMPTY;");
                    push_item(&mut args, owned("&mut __out"));
                } else {
                    push_str(&mut s, "let mut __out = std::mem::MaybeUninit::uninit();");
                    push_item(&mut args, owned("__out.as_mut_ptr()"));
                }
                push_str(&mut s, "\n");
                push_str(&mut s, "        let __err = unsafe { ");
                push_str(&mut s, ffi);
                push_str(&mut s, "(");
                push_str(&mut s, join_strings(args.as_slice(), ", ").as_str());
                push_str(&mut s, ") };\n");
                push_str(&mut s, "        if __err.code == 0 { Ok(");
                let okv = if bytes {
                    value_from_of(&o.kind, o.ok_type.as_str(), "__out")
                } else {
                    value_from_of(&o.kind, o.ok_type.as_str(), "unsafe { __out.assume_init() }")
                };
                assert(okv@ == ok_value(*o));
                push_str(&mut s, okv.as_str());
                push_str(&mut s, ") } else { Err(");
                push_str(&mut s, err_ident.as_str());
                push_str(&mut s, "::from_ffi(__err)) }\n");
            },
        },
    }
    assert(s@ =~= call_body(ffi@, *m, hv));
    s
}

fn take_handle_of(s: &mut String, binding: &str)
    ensures
        final(s)@ == old(s)@ + take_handle(binding@),
{
    push_str(s, "        ");
    push_str(s, binding);
    push_str(s, " = {\n");
    push_str(s, "            let this = std::mem::ManuallyDrop::new(self);\n");
    push_str(s, "            this.0\n");
    push_str(s, "        };\n");
    assert(s@ =~= old(s)@ + take_handle(binding@));
}

fn builder_body_of(e: &ExportableClientMeta, m: &ClientMethodMeta, ffi: &str) -> (r: String)
    requires
        ffi@ == c_fn_name(*e, *m),
    ensures
        r@ == builder_body(*e, *m),
{
    let mut args: Vec<String> = Vec::new();
    push_item(&mut args, owned("&mut __handle"));
    push_param_items(&mut args, &m.params, true);
    assert(strings_view(args@) =~= seq!["&mut __handle"@] + wrapper_args(m.params@));
    let pi = if e.lifetimes.len() == 0 {
        String::new()
    } else {
        owned(", std::marker::PhantomData")
    };
    let mut s = String::new();
    match &m.ret {
        ClientRetMeta::Void => {
            take_handle_of(&mut s, "let mut __handle");
            push_str(&mut s, pre_bindings_of(&m.params).as_str());
            push_str(&mut s, "        unsafe { ");
            push_str(&mut s, ffi);
            push_str(&mut s, "(");
            push_str(&mut s, join_strings(args.as_slice(), ", ").as_str());
            push_str(&mut s, ") };\n");
            push_str(&mut s, "        Self(__handle");
            push_str(&mut s, pi.as_str());
            push_str(&mut s, ")\n");
        },
        ClientRetMeta::Result { ok: None, err_ident } => {
            take_handle_of(&mut s, "let mut __handle");
            push_str(&mut s, pre_bindings_of(&m.params).as_str());
            push_str(&mut s, "        let __err = unsafe { ");
            push_str(&mut s, ffi);
            push_str(&mut s, "(");
            push_str(&mut s, join_strings(args.as_slice(), ", ").as_str());
            push_str(&mut s, ") };\n");
            push_str(&mut s, "        if __err.code == 0 {\n");
            push_str(&mut s, "            Ok(Self(__handle");
            push_str(&mut s, pi.as_str());
            push_str(&mut s, "))\n");
            push_str(&mut s, "        } else {\n");
            push_str(&mut s, "            Err(");
            push_str(&mut s, err_ident.as_str());
            push_str(&mut s, "::from_ffi(__err))\n");
            push_str(&mut s, "        }\n");
        },
        _ => {
            push_str(&mut s, "        compile_error!(\"unexpected builder return kind\")\n");
        },
    }
    assert(s@ =~= builder_body(*e, *m));
    s
}

fn method_body_of(e: &ExportableClientMeta, m: &ClientMethodMeta) -> (r: String)
    ensures
        r@ == method_body(*e, *m),
{
    let mut ffi = owned(e.fn_pfx.as_str());
    push_str(&mut ffi, m.ffi_name.as_str());
    if m.is_builder && m.receiver == MetaReceiver::Value {
        builder_body_of(e, m, ffi.as_str())
    } else if m.receiver == MetaReceiver::Value {
        let mut s = String::new();
        take_handle_of(&mut s, "let __handle");
        let mut h: Vec<String> = Vec::new();
        push_item(&mut h, owned("__handle"));
        assert(strings_view(h@) =~= seq!["__handle"@]);
        push_str(&mut s, call_body_of(ffi.as_str(), m, h).as_str());
        s
    } else if m.receiver == MetaReceiver::NoSelf {
        let h: Vec<String> = Vec::new();
        assert(strings_view(h@) =~= Seq::<Seq<char>>::empty());
        call_body_of(ffi.as_str(), m, h)
    } else {
        let mut h: Vec<String> = Vec::new();
        push_item(&mut h, owned("self.0"));
        assert(strings_view(h@) =~= seq!["self.0"@]);
        call_body_of(ffi.as_str(), m, h)
    }
}

fn wrapper_text_of(e: &ExportableClientMeta, m: &ClientMethodMeta) -> (r: String)
    ensures
        r@ == wrapper_text(*e, *m),
{
    let mut s = String::new();
    let ghost dv = strings_view(m.doc@);
    let mut i: usize = 0;
    assert(dv.take(0) =~= Seq::<Seq<char>>::empty());
    while i < m.doc.len()
        invariant
            i <= m.doc@.len(),
            dv == strings_view(m.doc@),
            s@ == doc_lines(dv.take(i as int)),
        decreases m.doc@.len() - i,
    {
        push_str(&mut s, "    ///");
        push_str(&mut s, m.doc[i].as_str());
        push_str(&mut s, "\n");
        assert(dv.take(i + 1).drop_last() =~= dv.take(i as int));
        assert(dv.take(i + 1).last() == dv[i as int]);
        i = i + 1;
    }
    assert(dv.take(m.doc@.len() as int) =~= dv);
    let mut items: Vec<String> = Vec::new();
    match m.receiver {
        MetaReceiver::NoSelf => {},
        MetaReceiver::Value => push_item(&mut items, owned("self")),
        MetaReceiver::Mut => push_item(&mut items, owned("&mut self")),
        MetaReceiver::Ref => push_item(&mut items, owned("&self")),
    }
    assert(strings_view(items@) =~= receiver_items(m.receiver));
    push_param_items(&mut items, &m.params, false);
    push_str(&mut s, "    pub fn ");
    push_str(&mut s, m.name.as_str());
    push_str(&mut s, generics_of(&m.method_lifetimes).as_str());
    push_str(&mut s, "(");
    push_str(&mut s, join_strings(items.as_slice(), ", ").as_str());
    push_str(&mut s, ")");
    match &m.ret {
        ClientRetMeta::Void => {
            if m.is_builder {
                push_str(&mut s, " -> Self");
            }
        },
        ClientRetMeta::Value { .. } => {
            if !m.rust_ret.as_str().is_empty() {
                push_str(&mut s, " -> ");
                push_str(&mut s, m.rust_ret.as_str());
            }
        },
        ClientRetMeta::Result { ok, err_ident } => {
            if m.is_builder {
                push_str(&mut s, " -> Result<Self, ");
                push_str(&mut s, err_ident.as_str());
                push_str(&mut s, ">");
            } else {
                match ok {
                    None => {
                        push_str(&mut s, " -> Result<(), ");
                        push_str(&mut s, err_ident.as_str());
                        push_str(&mut s, ">");
                    },
                    Some(_) => {
                        push_str(&mut s, " -> ");
                        push_str(&mut s, m.rust_ret.as_str());
                    },
                }
            }
        },
    }
    push_str(&mut s, " {\n");
    push_str(&mut s, method_body_of(e, m).as_str());
    push_str(&mut s, "    }\n");
    assert(s@ =~= wrapper_text(*e, *m));
    s
}

fn push_method_parts(s: &mut String, kind: u8, e: &ExportableClientMeta)
    requires
        kind <= 1,
    ensures
        final(s)@ == old(s)@ + method_parts(kind as int, *e, e.methods@),
{
    let ghost s0 = s@;
    let mut i: usize = 0;
    assert(e.methods@.take(0) =~= Seq::<ClientMethodMeta>::empty());
    assert(s@ =~= s0 + method_parts(kind as int, *e, e.methods@.take(0)));
    while i < e.methods.len()
        invariant
            i <= e.methods@.len(),
            kind <= 1,
            s@ == s0 + method_parts(kind as int, *e, e.methods@.take(i as int)),
        decreases e.methods@.len() - i,
    {
        let part = if kind == 0 {
            extern_decl_of(e, &e.methods[i])
        } else {
            wrapper_text_of(e, &e.methods[i])
        };
        push_str(s, part.as_str());
        assert(e.methods@.take(i + 1).drop_last() =~= e.methods@.take(i as int));
        assert(e.methods@.take(i + 1).last() == e.methods@[i as int]);
        i = i + 1;
        assert(s@ =~= s0 + method_parts(kind as int, *e, e.methods@.take(i as int)));
    }
    assert(e.methods@.take(e.methods@.len() as int) =~= e.methods@);
}

fn extern_block_of(e: &ExportableClientMeta, destroy: &str) -> (r: String)
    requires
        destroy@ == destroy_name(*e),
    ensures
        r@ == extern_block(*e),
{
    let mut s = owned("unsafe extern \"C\" {\n");
    push_str(&mut s, "    pub fn ");
    push_str(&mut s, destroy);
    push_str(&mut s, "(handle: *mut core::ffi::c_void);\n");
    push_method_parts(&mut s, 0, e);
    push_str(&mut s, "}\n\n");
    assert(s@ =~= extern_block(*e));
    s
}

fn struct_part_of(e: &ExportableClientMeta, g: &str) -> (r: String)
    requires
        g@ == generics(strings_view(e.lifetimes@)),
    ensures
        r@ == struct_part(*e),
{
    let n = e.struct_name.as_str();
    let mut s = owned("pub struct ");
    push_str(&mut s, n);
    push_str(&mut s, g);
    push_str(&mut s, "(*mut core::ffi::c_void");
    push_str(&mut s, phantom_of(&e.lifetimes).as_str());
    push_str(&mut s, ");\n\n");
    push_str(&mut s, "impl");
    push_str(&mut s, g);
    push_str(&mut s, " ");
    push_str(&mut s, n);
    push_str(&mut s, g);
    push_str(&mut s, " {\n");
    push_str(&mut s, "    #[doc(hidden)]\n");
    push_str(&mut s, "    pub fn __from_raw(ptr: *mut core::ffi::c_void) -> Self {\n");
    push_str(&mut s, "        Self(ptr");
    if e.lifetimes.len() != 0 {
        push_str(&mut s, ", std::marker::PhantomData");
    }
    push_str(&mut s, ")\n");
    push_str(&mut s, "    }\n\n");
    push_str(&mut s, "    #[doc(hidden)]\n");
    push_str(&mut s, "    pub fn __into_raw(self) -> *mut core::ffi::c_void {\n");
    push_str(&mut s, "        let this = std::mem::ManuallyDrop::new(self);\n");
    push_str(&mut s, "        this.0\n");
    push_str(&mut s, "    }\n");
    push_str(&mut s, "}\n\n");
    if e.lifetimes.len() == 0 {
        push_str(&mut s, "impl ffier::FfiType for ");
        push_str(&mut s, n);
        push_str(&mut s, " {\n");
        push_str(&mut s, "    type CRepr = *mut core::ffi::c_void;\n");
        push_str(&mut s, "    const C_TYPE_NAME: &str = \"\";\n");
        push_str(&mut s, "    fn into_c(self) -> *mut core::ffi::c_void { self.__into_raw() }\n");
        push_str(&mut s, "    fn from_c(repr: *mut core::ffi::c_void) -> Self { Self::__from_raw(repr) }\n");
        push_str(&mut s, "}\n\n");
    }
    assert(s@ =~= struct_part(*e));
    s
}

fn impls_part_of(e: &ExportableClientMeta, g: &str, destroy: &str) -> (r: String)
    requires
        g@ == generics(strings_view(e.lifetimes@)),
        destroy@ == destroy_name(*e),
    ensures
        r@ == impls_part(*e),
{
    let n = e.struct_name.as_str();
    let mut s = owned("impl");
    push_str(&mut s, g);
    push_str(&mut s, " std::fmt::Debug for ");
    push_str(&mut s, n);
    push_str(&mut s, g);
    push_str(&mut s, " {\n");
    push_str(&mut s, "    fn fmt(&self, f: &mut std::fmt::Formatter<'_>) -> std::fmt::Result {\n");
    push_str(&mut s, "        f.debug_tuple(\"");
    push_str(&mut s, n);
    push_str(&mut s, "\").field(&self.0).finish()\n");
    push_str(&mut s, "    }\n");
    push_str(&mut s, "}\n\n");
    push_str(&mut s, "impl");
    push_str(&mut s, g);
    push_str(&mut s, " ");
    push_str(&mut s, n);
    push_str(&mut s, g);
    push_str(&mut s, " {\n");
    push_method_parts(&mut s, 1, e);
    push_str(&mut s, "}\n\n");
    push_str(&mut s, "impl");
    push_str(&mut s, g);
    push_str(&mut s, " Drop for ");
    push_str(&mut s, n);
    push_str(&mut s, g);
    push_str(&mut s, " {\n");
    push_str(&mut s, "    fn drop(&mut self) {\n");
    push_str(&mut s, "        unsafe { ");
    push_str(&mut s, destroy);
    push_str(&mut s, "(self.0) }\n");
    push_str(&mut s, "    }\n");
    push_str(&mut s, "}\n");
    assert(s@ =~= impls_part(*e));
    s
}

/// The client text of an exported type: the extern declarations (destroy,
/// then one per method), the struct holding the handle with its raw
/// conversions and, without lifetimes, its `FfiType` impl, then `Debug`,
/// the safe wrappers of the methods in order, and `Drop`.
pub fn exportable_client_text(e: &ExportableClientMeta) -> (r: String)
    ensures
        r@ == exportable_client_spec(*e),
{
    let mut destroy = owned(e.fn_pfx.as_str());
    push_str(&mut destroy, crate::naming::camel_to_snake(e.struct_name.as_str()).as_str());
    push_str(&mut destroy, "_destroy");
    let g = generics_of(&e.lifetimes);
    let mut s = extern_block_of(e, destroy.as_str());
    push_str(&mut s, struct_part_of(e, g.as_str()).as_str());
    push_str(&mut s, impls_part_of(e, g.as_str(), destroy.as_str()).as_str());
    s
}

// ---------------------------------------------------------------------------
// Error types
// ---------------------------------------------------------------------------

/// A variant of an error type: its name, code, and message as a string
/// literal (its source text, quotes included).
pub struct ErrorClientVariant {
    pub name: String,
    pub code: u32,
    pub message_literal: String,
}

/// An error type, as its client sees it.
pub struct ErrorClientMeta {
    pub name: String,
    pub variants: Vec<ErrorClientVariant>,
}

/// What is written for each variant, by kind: 0 the enum variant, 1 the
/// arm decoding its code, 2 the arm writing its message.
pub open spec fn variant_part(kind: int, v: ErrorClientVariant) -> Seq<char> {
    if kind == 0 {
        "    "@ + v.name@ + ",\n"@
    } else if kind == 1 {
        "            "@ + crate::text::decimal(v.code as nat) + "u32 => Self::"@ + v.name@ + ",\n"@
    } else {
        "            Self::"@ + v.name@ + " => write!(f, "@ + v.message_literal@ + "),\n"@
    }
}

/// The parts of the given kind for the variants, in order.
pub open spec fn variant_parts(kind: int, vs: Seq<ErrorClientVariant>) -> Seq<char>
    decreases vs.len(),
{
    if vs.len() == 0 {
        Seq::empty()
    } else {
        variant_parts(kind, vs.drop_last()) + variant_part(kind, vs.last())
    }
}

/// The client text of an error type: the enum of its variants; `from_ffi`,
/// which frees the error value and decodes its code (panicking on a code
/// of no variant); `Display` by each variant's message; and `Error`.
pub open spec fn error_client_spec(e: ErrorClientMeta) -> Seq<char> {
    let n = e.name@;
    "#[derive(Debug, Clone, Copy, PartialEq, Eq)]\n"@ + "pub enum "@ + n + " {\n"@ + variant_parts(0, e.variants@) + "}\n\n"@ + "impl "@ + n
        + " {\n"@ + "    pub fn from_ffi(mut err: ffier::FfierError) -> Self {\n"@ + "        let code = err.code;\n"@
        + "        unsafe { err.free() };\n"@ + "        match code {\n"@ + variant_parts(1, e.variants@)
        + "            other => panic!(\"unknown {} error code {}\", \""@ + n + "\", other),\n"@ + "        }\n"@ + "    }\n"@ + "}\n\n"@
        + "impl std::fmt::Display for "@ + n + " {\n"@ + "    fn fmt(&self, f: &mut std::fmt::Formatter<'_>) -> std::fmt::Result {\n"@
        + "        match self {\n"@ + variant_parts(2, e.variants@) + "        }\n"@ + "    }\n"@ + "}\n\n"@ + "impl std::error::Error for "@ + n
        + " {}\n"@
}

fn push_variant_parts(s: &mut String, kind: u8, vs: &Vec<ErrorClientVariant>)
    requires
        kind <= 2,
    ensures
        final(s)@ == old(s)@ + variant_parts(kind as int, vs@),
{
    let ghost s0 = s@;
    let mut i: usize = 0;
    assert(vs@.take(0) =~= Seq::<ErrorClientVariant>::empty());
    assert(s@ =~= s0 + variant_parts(kind as int, vs@.take(0)));
    while i < vs.len()
        invariant
            i <= vs@.len(),
            kind <= 2,
            s@ == s0 + variant_parts(kind as int, vs@.take(i as int)),
        decreases vs@.len() - i,
    {
        let ghost before = s@;
        let v = &vs[i];
        if kind == 0 {
            push_str(s, "    ");
            push_str(s, v.name.as_str());
            push_str(s, ",\n");
        } else if kind == 1 {
            push_str(s, "            ");
            crate::text::push_decimal(s, v.code as u64);
            push_str(s, "u32 => Self::");
            push_str(s, v.name.as_str());
            push_str(s, ",\n");
        } else {
            push_str(s, "            Self::");
            push_str(s, v.name.as_str());
            push_str(s, " => write!(f, ");
            push_str(s, v.message_literal.as_str());
            push_str(s, "),\n");
        }
        assert(s@ =~= before + variant_part(kind as int, vs@[i as int]));
        assert(vs@.take(i + 1).drop_last() =~= vs@.take(i as int));
        assert(vs@.take(i + 1).last() == vs@[i as int]);
        i = i + 1;
        assert(s@ =~= s0 + variant_parts(kind as int, vs@.take(i as int)));
    }
    assert(vs@.take(vs@.len() as int) =~= vs@);
}

/// The client text of an error type.
pub fn error_client_text(e: &ErrorClientMeta) -> (r: String)
    ensures
        r@ == error_client_spec(*e),
{
    let n = e.name.as_str();
    let mut s = owned("#[derive(Debug, Clone, Copy, PartialEq, Eq)]\n");
    push_str(&mut s, "pub enum ");
    push_str(&mut s, n);
    push_str(&mut s, " {\n");
    push_variant_parts(&mut s, 0, &e.variants);
    push_str(&mut s, "}\n\n");
    push_str(&mut s, "impl ");
    push_str(&mut s, n);
    push_str(&mut s, " {\n");
    push_str(&mut s, "    pub fn from_ffi(mut err: ffier::FfierError) -> Self {\n");
    push_str(&mut s, "        let code = err.code;\n");
    push_str(&mut s, "        unsafe { err.free() };\n");
    push_str(&mut s, "        match code {\n");
    push_variant_parts(&mut s, 1, &e.variants);
    push_str(&mut s, "            other => panic!(\"unknown {} error code {}\", \"");
    push_str(&mut s, n);
    push_str(&mut s, "\", other),\n");
    push_str(&mut s, "        }\n");
    push_str(&mut s, "    }\n");
    push_str(&mut s, "}\n\n");
    push_str(&mut s, "impl std::fmt::Display for ");
    push_str(&mut s, n);
    push_str(&mut s, " {\n");
    push_str(&mut s, "    fn fmt(&self, f: &mut std::fmt::Formatter<'_>) -> std::fmt::Result {\n");
    push_str(&mut s, "        match self {\n");
    push_variant_parts(&mut s, 2, &e.variants);
    push_str(&mut s, "        }\n");
    push_str(&mut s, "    }\n");
    push_str(&mut s, "}\n\n");
    push_str(&mut s, "impl std::error::Error for ");
    push_str(&mut s, n);
    push_str(&mut s, " {}\n");
    assert(s@ =~= error_client_spec(*e));
    s
}

} // verus!
