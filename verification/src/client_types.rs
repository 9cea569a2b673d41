//! The Rust client source of an exported type: its extern block, its
//! handle struct, the trait impls that make it an FFI value, its wrapper
//! methods and its `Drop`.

use vstd::prelude::*;
use crate::client_method::{emit_method_wrapper, method_wrapper_text, ClientMethod};
use crate::client_sig::{build_extern_signature, extern_sig, handle_param, method_lifetimes, method_lifetimes_text};
use crate::header::Receiver;
use crate::text::{decimal, join_spec, join_strings, owned, push_decimal, push_str, strings_view};

verus! {

/// An exported type as the client sees it.
pub struct ClientExportedType {
    pub name: String,
    pub destroy_ffi_name: String,
    pub type_tag: u32,
    /// The type's lifetime parameters, without the leading `'`.
    pub lifetimes: Vec<String>,
    pub is_builder_type: bool,
    pub methods: Vec<ClientMethod>,
}

/// The extern declaration of a method.
pub open spec fn method_extern_sig(m: ClientMethod, ffi: Seq<char>) -> Seq<char> {
    extern_sig(
        ffi,
        if m.receiver == Receiver::NoSelf {
            Seq::empty()
        } else {
            seq![handle_param()]
        },
        m.params@,
        m.ret,
        m.is_builder,
    )
}

/// The extern declaration of an exported method (nothing for a method in
/// another context).
pub open spec fn extern_line(m: ClientMethod) -> Seq<char> {
    match m.ffi_name {
        Some(f) => "    pub fn "@ + method_extern_sig(m, f@) + ";\n"@,
        None => Seq::empty(),
    }
}

/// The extern declarations of the exported methods, in order.
pub open spec fn extern_lines_text(ms: Seq<ClientMethod>) -> Seq<char>
    decreases ms.len(),
{
    if ms.len() == 0 {
        Seq::empty()
    } else {
        extern_lines_text(ms.drop_last()) + extern_line(ms.last())
    }
}

/// The wrapper of an exported method (nothing for a method in another
/// context).
pub open spec fn wrapper_piece(m: ClientMethod, is_builder_type: bool, has_lifetimes: bool, erf: Seq<char>) -> Seq<char> {
    match m.ffi_name {
        Some(f) => method_wrapper_text(m, f@, is_builder_type, has_lifetimes, erf),
        None => Seq::empty(),
    }
}

/// The wrappers of the exported methods, in order.
pub open spec fn wrapper_lines_text(ms: Seq<ClientMethod>, is_builder_type: bool, has_lifetimes: bool, erf: Seq<char>) -> Seq<char>
    decreases ms.len(),
{
    if ms.len() == 0 {
        Seq::empty()
    } else {
        wrapper_lines_text(ms.drop_last(), is_builder_type, has_lifetimes, erf) + wrapper_piece(
            ms.last(),
            is_builder_type,
            has_lifetimes,
            erf,
        )
    }
}

/// The extern block: the destroy function, then the exported methods.
pub open spec fn extern_block_text(ty: ClientExportedType) -> Seq<char> {
    "unsafe extern \"C\" {\n"@ + "    pub fn "@ + ty.destroy_ffi_name@ + "(handle: *mut core::ffi::c_void);\n"@ + extern_lines_text(ty.methods@)
        + "}\n"@ + "\n"@
}

/// `&'a ()` for each lifetime.
pub open spec fn phantom_refs(lts: Seq<Seq<char>>) -> Seq<Seq<char>> {
    lts.map_values(|l: Seq<char>| "&'"@ + l + " ()"@)
}

/// The marker field that carries the lifetimes.
pub open spec fn phantom_text(lts: Seq<Seq<char>>) -> Seq<char> {
    if lts.len() == 1 {
        "std::marker::PhantomData<&'"@ + lts[0] + " ()>"@
    } else {
        "std::marker::PhantomData<("@ + join_spec(phantom_refs(lts), ", "@) + ")>"@
    }
}

/// The handle struct.
pub open spec fn struct_def_text(name: Seq<char>, lts: Seq<Seq<char>>) -> Seq<char> {
    if lts.len() > 0 {
        "pub struct "@ + name + method_lifetimes_text(lts) + "(*mut core::ffi::c_void, "@ + phantom_text(lts) + ");\n"@ + "\n"@
    } else {
        "pub struct "@ + name + "(*mut core::ffi::c_void);\n"@ + "\n"@
    }
}

/// `impl<'a> Name<'a> {` style headers: `impl{lt} {trait}{name}{lt} {`.
pub open spec fn impl_head(lt: Seq<char>, tr: Seq<char>, name: Seq<char>) -> Seq<char> {
    "impl"@ + lt + " "@ + tr + name + lt + " {\n"@
}

/// The raw conversions.
pub open spec fn raw_impl_text(name: Seq<char>, lt: Seq<char>, has_lifetimes: bool) -> Seq<char> {
    impl_head(lt, Seq::empty(), name) + "    #[doc(hidden)]\n"@ + if has_lifetimes {
        "    pub fn __from_raw(ptr: *mut core::ffi::c_void) -> Self { Self(ptr, std::marker::PhantomData) }\n"@
    } else {
        "    pub fn __from_raw(ptr: *mut core::ffi::c_void) -> Self { Self(ptr) }\n"@
    } + "    #[doc(hidden)]\n"@
        + "    pub fn __into_raw(self) -> *mut core::ffi::c_void { let this = std::mem::ManuallyDrop::new(self); this.0 }\n"@
        + "}\n"@ + "\n"@
}

/// `FfiHandle`, `FfiType` and `Debug`.
pub open spec fn value_impls_text(name: Seq<char>, lt: Seq<char>, type_tag: u32) -> Seq<char> {
    impl_head(lt, "FfiHandle for "@, name) + "    const C_HANDLE_NAME: &'static str = \""@ + name + "\";\n"@
        + "    const TYPE_TAG: u32 = "@ + decimal(type_tag as nat) + "u32;\n"@
        + "    unsafe fn as_handle(&self) -> *mut core::ffi::c_void { self.0 }\n"@ + "}\n"@ + "\n"@ + impl_head(
        lt,
        "FfiType for "@,
        name,
    ) + "    type CRepr = *mut core::ffi::c_void;\n"@ + "    const C_TYPE_NAME: &'static str = \""@ + name + "\";\n"@
        + "    fn into_c(self) -> *mut core::ffi::c_void { self.__into_raw() }\n"@
        + "    unsafe fn from_c(repr: *mut core::ffi::c_void) -> Self { Self::__from_raw(repr) }\n"@
        + "    fn borrow_as_c(&self) -> *mut core::ffi::c_void { self.0 }\n"@ + "}\n"@ + "\n"@ + impl_head(
        lt,
        "std::fmt::Debug for "@,
        name,
    ) + "    fn fmt(&self, f: &mut std::fmt::Formatter<'_>) -> std::fmt::Result {\n"@ + "        f.debug_tuple(\""@ + name
        + "\").field(&self.0).finish()\n"@ + "    }\n"@ + "}\n"@ + "\n"@
}

/// `Drop`, which destroys the handle.
pub open spec fn drop_impl_text(name: Seq<char>, lt: Seq<char>, destroy: Seq<char>) -> Seq<char> {
    impl_head(lt, "Drop for "@, name) + "    fn drop(&mut self) {\n"@ + "        unsafe { "@ + destroy + "(self.0) }\n"@ + "    }\n"@
        + "}\n"@ + "\n"@
}

/// The whole client source of an exported type.
#[verifier::opaque]
pub open spec fn exported_type_text(ty: ClientExportedType, erf: Seq<char>) -> Seq<char> {
    let lts = strings_view(ty.lifetimes@);
    let lt = method_lifetimes_text(lts);
    let has_lifetimes = lts.len() > 0;
    extern_block_text(ty) + struct_def_text(ty.name@, lts) + raw_impl_text(ty.name@, lt, has_lifetimes) + value_impls_text(
        ty.name@,
        lt,
        ty.type_tag,
    ) + impl_head(lt, Seq::empty(), ty.name@) + wrapper_lines_text(ty.methods@, ty.is_builder_type, has_lifetimes, erf) + "}\n"@
        + "\n"@ + drop_impl_text(ty.name@, lt, ty.destroy_ffi_name@)
}

proof fn lemma_extern_lines_split(ms: Seq<ClientMethod>, k: int) -> (rest: Seq<char>)
    requires
        0 <= k < ms.len(),
    ensures
        extern_lines_text(ms) == extern_lines_text(ms.take(k)) + extern_line(ms[k]) + rest,
    decreases ms.len(),
{
    if k == ms.len() - 1 {
        assert(ms.take(k) =~= ms.drop_last());
        Seq::empty()
    } else {
        let r = lemma_extern_lines_split(ms.drop_last(), k);
        assert(ms.drop_last().take(k) =~= ms.take(k));
        r + extern_line(ms.last())
    }
}

proof fn lemma_wrapper_lines_split(ms: Seq<ClientMethod>, k: int, ibt: bool, hl: bool, erf: Seq<char>) -> (rest: Seq<char>)
    requires
        0 <= k < ms.len(),
    ensures
        wrapper_lines_text(ms, ibt, hl, erf) == wrapper_lines_text(ms.take(k), ibt, hl, erf) + wrapper_piece(ms[k], ibt, hl, erf) + rest,
    decreases ms.len(),
{
    if k == ms.len() - 1 {
        assert(ms.take(k) =~= ms.drop_last());
        Seq::empty()
    } else {
        let r = lemma_wrapper_lines_split(ms.drop_last(), k, ibt, hl, erf);
        assert(ms.drop_last().take(k) =~= ms.take(k));
        r + wrapper_piece(ms.last(), ibt, hl, erf)
    }
}

/// Every method that gets a safe wrapper calls a declared function: the
/// type's extern block declares it under the C name that the wrapper calls.
pub proof fn lemma_wrapped_methods_declared(ty: ClientExportedType, k: int, erf: Seq<char>) -> (parts: (
    Seq<char>,
    Seq<char>,
    Seq<char>,
    Seq<char>,
))
    requires
        0 <= k < ty.methods@.len(),
        ty.methods@[k].ffi_name is Some,
    ensures
        extern_block_text(ty) == parts.0 + ("    pub fn "@ + method_extern_sig(ty.methods@[k], ty.methods@[k].ffi_name->0@) + ";\n"@)
            + parts.1,
        wrapper_lines_text(ty.methods@, ty.is_builder_type, ty.lifetimes@.len() > 0, erf) == parts.2 + method_wrapper_text(
            ty.methods@[k],
            ty.methods@[k].ffi_name->0@,
            ty.is_builder_type,
            ty.lifetimes@.len() > 0,
            erf,
        ) + parts.3,
{
    let ms = ty.methods@;
    let m = ms[k];
    let f = m.ffi_name->0@;
    let hl = ty.lifetimes@.len() > 0;
    let r = lemma_extern_lines_split(ms, k);
    let a = "unsafe extern \"C\" {\n"@ + "    pub fn "@ + ty.destroy_ffi_name@ + "(handle: *mut core::ffi::c_void);\n"@ + extern_lines_text(
        ms.take(k),
    );
    let b = r + "}\n"@ + "\n"@;
    assert(extern_block_text(ty) =~= a + ("    pub fn "@ + method_extern_sig(m, f) + ";\n"@) + b);
    let r2 = lemma_wrapper_lines_split(ms, k, ty.is_builder_type, hl, erf);
    let c = wrapper_lines_text(ms.take(k), ty.is_builder_type, hl, erf);
    (a, b, c, r2)
}

fn emit_extern_block(out: &mut String, ty: &ClientExportedType)
    ensures
        final(out)@ == old(out)@ + extern_block_text(*ty),
{
    let ghost o0 = out@;
    push_str(out, "unsafe extern \"C\" {\n");
    push_str(out, "    pub fn ");
    push_str(out, ty.destroy_ffi_name.as_str());
    push_str(out, "(handle: *mut core::ffi::c_void);\n");
    let ghost o1 = out@;
    let ghost ms = ty.methods@;
    let mut i: usize = 0;
    assert(ms.take(0) =~= Seq::<ClientMethod>::empty());
    while i < ty.methods.len()
        invariant
            i <= ms.len(),
            ms == ty.methods@,
            out@ == o1 + extern_lines_text(ms.take(i as int)),
        decreases ms.len() - i,
    {
        let m = &ty.methods[i];
        match &m.ffi_name {
            Some(f) => {
                let sig = build_extern_signature(f.as_str(), m.receiver, m.params.as_slice(), &m.ret, m.is_builder);
                push_str(out, "    pub fn ");
                push_str(out, sig.as_str());
                push_str(out, ";\n");
            },
            None => {},
        }
        i = i + 1;
        assert(ms.take(i as int).drop_last() =~= ms.take(i - 1));
        assert(out@ =~= o1 + extern_lines_text(ms.take(i as int)));
    }
    assert(ms.take(ms.len() as int) =~= ms);
    push_str(out, "}\n");
    push_str(out, "\n");
    assert(out@ =~= o0 + extern_block_text(*ty));
}

fn phantom(lts: &Vec<String>) -> (r: String)
    requires
        lts@.len() > 0,
    ensures
        r@ == phantom_text(strings_view(lts@)),
{
    let ghost lv = strings_view(lts@);
    if lts.len() == 1 {
        let mut s = owned("std::marker::PhantomData<&'");
        push_str(&mut s, lts[0].as_str());
        push_str(&mut s, " ()>");
        assert(lv[0] == lts@[0]@);
        return s;
    }
    let mut refs: Vec<String> = Vec::new();
    let mut i: usize = 0;
    while i < lts.len()
        invariant
            i <= lts@.len(),
            lv == strings_view(lts@),
            strings_view(refs@) == phantom_refs(lv).take(i as int),
        decreases lts@.len() - i,
    {
        let ghost before = strings_view(refs@);
        let mut r = owned("&'");
        push_str(&mut r, lts[i].as_str());
        push_str(&mut r, " ()");
        assert(lv[i as int] == lts@[i as int]@);
        assert(phantom_refs(lv)[i as int] == r@);
        let ghost rv = r@;
        refs.push(r);
        assert(strings_view(refs@) =~= before.push(rv));
        i = i + 1;
        assert(strings_view(refs@) =~= phantom_refs(lv).take(i as int));
    }
    assert(phantom_refs(lv).take(lts@.len() as int) =~= phantom_refs(lv));
    let mut s = owned("std::marker::PhantomData<(");
    push_str(&mut s, join_strings(refs.as_slice(), ", ").as_str());
    push_str(&mut s, ")>");
    s
}

fn struct_def(name: &str, lts: &Vec<String>) -> (r: String)
    ensures
        r@ == struct_def_text(name@, strings_view(lts@)),
{
    let mut s = owned("pub struct ");
    push_str(&mut s, name);
    if lts.len() > 0 {
        push_str(&mut s, method_lifetimes(lts).as_str());
        push_str(&mut s, "(*mut core::ffi::c_void, ");
        push_str(&mut s, phantom(lts).as_str());
        push_str(&mut s, ");\n");
    } else {
        push_str(&mut s, "(*mut core::ffi::c_void);\n");
    }
    push_str(&mut s, "\n");
    s
}

fn impl_head_str(lt: &str, tr: &str, name: &str) -> (r: String)
    ensures
        r@ == impl_head(lt@, tr@, name@),
{
    let mut s = owned("impl");
    push_str(&mut s, lt);
    push_str(&mut s, " ");
    push_str(&mut s, tr);
    push_str(&mut s, name);
    push_str(&mut s, lt);
    push_str(&mut s, " {\n");
    s
}

fn raw_impl_head(lt: &str, name: &str) -> (r: String)
    ensures
        r@ == impl_head(lt@, Seq::empty(), name@),
{
    let mut s = owned("impl");
    push_str(&mut s, lt);
    push_str(&mut s, " ");
    push_str(&mut s, name);
    push_str(&mut s, lt);
    push_str(&mut s, " {\n");
    assert(s@ =~= impl_head(lt@, Seq::empty(), name@));
    s
}

fn raw_impl(name: &str, lt: &str, has_lifetimes: bool) -> (r: String)
    ensures
        r@ == raw_impl_text(name@, lt@, has_lifetimes),
{
    let mut s = raw_impl_head(lt, name);
    push_str(&mut s, "    #[doc(hidden)]\n");
    if has_lifetimes {
        push_str(&mut s, "    pub fn __from_raw(ptr: *mut core::ffi::c_void) -> Self { Self(ptr, std::marker::PhantomData) }\n");
    } else {
        push_str(&mut s, "    pub fn __from_raw(ptr: *mut core::ffi::c_void) -> Self { Self(ptr) }\n");
    }
    push_str(&mut s, "    #[doc(hidden)]\n");
    push_str(
        &mut s,
        "    pub fn __into_raw(self) -> *mut core::ffi::c_void { let this = std::mem::ManuallyDrop::new(self); this.0 }\n",
    );
    push_str(&mut s, "}\n");
    push_str(&mut s, "\n");
    s
}

fn value_impls(name: &str, lt: &str, type_tag: u32) -> (r: String)
    ensures
        r@ == value_impls_text(name@, lt@, type_tag),
{
    let mut s = impl_head_str(lt, "FfiHandle for ", name);
    push_str(&mut s, "    const C_HANDLE_NAME: &'static str = \"");
    push_str(&mut s, name);
    push_str(&mut s, "\";\n");
    push_str(&mut s, "    const TYPE_TAG: u32 = ");
    push_decimal(&mut s, type_tag as u64);
    push_str(&mut s, "u32;\n");
    push_str(&mut s, "    unsafe fn as_handle(&self) -> *mut core::ffi::c_void { self.0 }\n");
    push_str(&mut s, "}\n");
    push_str(&mut s, "\n");
    push_str(&mut s, impl_head_str(lt, "FfiType for ", name).as_str());
    push_str(&mut s, "    type CRepr = *mut core::ffi::c_void;\n");
    push_str(&mut s, "    const C_TYPE_NAME: &'static str = \"");
    push_str(&mut s, name);
    push_str(&mut s, "\";\n");
    push_str(&mut s, "    fn into_c(self) -> *mut core::ffi::c_void { self.__into_raw() }\n");
    push_str(&mut s, "    unsafe fn from_c(repr: *mut core::ffi::c_void) -> Self { Self::__from_raw(repr) }\n");
    push_str(&mut s, "    fn borrow_as_c(&self) -> *mut core::ffi::c_void { self.0 }\n");
    push_str(&mut s, "}\n");
    push_str(&mut s, "\n");
    push_str(&mut s, impl_head_str(lt, "std::fmt::Debug for ", name).as_str());
    push_str(&mut s, "    fn fmt(&self, f: &mut std::fmt::Formatter<'_>) -> std::fmt::Result {\n");
    push_str(&mut s, "        f.debug_tuple(\"");
    push_str(&mut s, name);
    push_str(&mut s, "\").field(&self.0).finish()\n");
    push_str(&mut s, "    }\n");
    push_str(&mut s, "}\n");
    push_str(&mut s, "\n");
    s
}

fn drop_impl(name: &str, lt: &str, destroy: &str) -> (r: String)
    ensures
        r@ == drop_impl_text(name@, lt@, destroy@),
{
    let mut s = impl_head_str(lt, "Drop for ", name);
    push_str(&mut s, "    fn drop(&mut self) {\n");
    push_str(&mut s, "        unsafe { ");
    push_str(&mut s, destroy);
    push_str(&mut s, "(self.0) }\n");
    push_str(&mut s, "    }\n");
    push_str(&mut s, "}\n");
    push_str(&mut s, "\n");
    s
}

fn emit_wrappers(out: &mut String, ty: &ClientExportedType, has_lifetimes: bool, error_result_fn: &str)
    ensures
        final(out)@ == old(out)@ + wrapper_lines_text(ty.methods@, ty.is_builder_type, has_lifetimes, error_result_fn@),
{
    let ghost o0 = out@;
    let ghost ms = ty.methods@;
    let mut i: usize = 0;
    assert(ms.take(0) =~= Seq::<ClientMethod>::empty());
    while i < ty.methods.len()
        invariant
            i <= ms.len(),
            ms == ty.methods@,
            out@ == o0 + wrapper_lines_text(ms.take(i as int), ty.is_builder_type, has_lifetimes, error_result_fn@),
        decreases ms.len() - i,
    {
        let m = &ty.methods[i];
        match &m.ffi_name {
            Some(f) => emit_method_wrapper(out, m, f.as_str(), ty.is_builder_type, has_lifetimes, error_result_fn),
            None => {},
        }
        i = i + 1;
        assert(ms.take(i as int).drop_last() =~= ms.take(i - 1));
        assert(out@ =~= o0 + wrapper_lines_text(ms.take(i as int), ty.is_builder_type, has_lifetimes, error_result_fn@));
    }
    assert(ms.take(ms.len() as int) =~= ms);
}

/// Writes the client source of an exported type; `error_result_fn` is the
/// error trait's `result` dispatch function, which handle-returning methods
/// call on failure.
pub fn emit_exported_type(out: &mut String, ty: &ClientExportedType, error_result_fn: &str)
    ensures
        final(out)@ == old(out)@ + exported_type_text(*ty, error_result_fn@),
{
    let has_lifetimes = ty.lifetimes.len() > 0;
    let lt = method_lifetimes(&ty.lifetimes);
    let mut t = String::new();
    emit_extern_block(&mut t, ty);
    assert(t@ =~= extern_block_text(*ty));
    push_str(&mut t, struct_def(ty.name.as_str(), &ty.lifetimes).as_str());
    push_str(&mut t, raw_impl(ty.name.as_str(), lt.as_str(), has_lifetimes).as_str());
    push_str(&mut t, value_impls(ty.name.as_str(), lt.as_str(), ty.type_tag).as_str());
    push_str(&mut t, raw_impl_head(lt.as_str(), ty.name.as_str()).as_str());
    emit_wrappers(&mut t, ty, has_lifetimes, error_result_fn);
    push_str(&mut t, "}\n");
    push_str(&mut t, "\n");
    push_str(&mut t, drop_impl(ty.name.as_str(), lt.as_str(), ty.destroy_ffi_name.as_str()).as_str());
    reveal(exported_type_text);
    push_str(out, t.as_str());
}

} // verus!
