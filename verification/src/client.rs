//! Rust client bindings: the source text written for an error type of the
//! library, and for its enums and bitflags.
//!
//! The schema is given as plain values: an error variant carries the
//! borrowed Rust types of its fields, and the runtime functions the client
//! calls (destroy, message, payload) are given by name.

use vstd::prelude::*;
use crate::header::{EnumType, EnumVariant};
use crate::text::{chars_of, str_eq, decimal, owned, push_decimal, push_signed_decimal, push_str, signed_decimal, strings_view};

verus! {

/// The decimal representation of a number, as a `String`.
pub fn decimal_string(n: u64) -> (r: String)
    ensures
        r@ == decimal(n as nat),
{
    let mut s = String::new();
    push_decimal(&mut s, n);
    s
}

// ---------------------------------------------------------------------------
// Error types
// ---------------------------------------------------------------------------

/// A variant of an error type as the client sees it.
pub struct ClientErrorVariant {
    pub name: String,
    pub code: u32,
    /// The borrowed Rust type returned for each payload field
    /// (e.g. `&str` for a `Box<str>` field); empty for a unit variant.
    pub field_types: Vec<String>,
}

/// An error type as the client sees it.
pub struct ClientErrorType {
    pub name: String,
    pub variants: Vec<ClientErrorVariant>,
}

/// The runtime functions and types that client error types use.
pub struct ErrorRuntime {
    /// The library prefix, e.g. `ft`.
    pub prefix: String,
    /// Destroys an error handle.
    pub error_destroy_fn: String,
    /// Writes an error's message through a `PushStr` handle.
    pub error_message_fn: String,
    /// The type tag of the `PushStr` trait.
    pub push_str_type_tag: u32,
    /// The vtable struct of the `PushStr` trait.
    pub push_str_vtable_name: String,
}

/// The handle wrapper of an error type: it frees the error handle when dropped.
pub open spec fn error_handle_block_text(h: Seq<char>, destroy_fn: Seq<char>) -> Seq<char> {
    "pub struct "@ + h + "(*mut core::ffi::c_void);\n"@ + "impl "@ + h + " {\n"@ + "    fn handle(&self) -> *mut core::ffi::c_void { self.0 }\n"@ + "}\n"@ + "impl Drop for "@ + h + " {\n"@ + "    fn drop(&mut self) { if !self.0.is_null() { unsafe { "@ + destroy_fn + "(self.0) } } }\n"@ + "}\n"@ + "impl std::fmt::Debug for "@ + h + " {\n"@ + "    fn fmt(&self, f: &mut std::fmt::Formatter<'_>) -> std::fmt::Result { write!(f, \"ErrorHandle({:?})\", self.0) }\n"@ + "}\n"@ + "\n"@
}

fn error_handle_block(h: &str, destroy_fn: &str) -> (r: String)
    ensures
        r@ == error_handle_block_text(h@, destroy_fn@),
{
    let mut s = owned("pub struct ");
    push_str(&mut s, h);
    push_str(&mut s, "(*mut core::ffi::c_void);\n");
    push_str(&mut s, "impl ");
    push_str(&mut s, h);
    push_str(&mut s, " {\n");
    push_str(&mut s, "    fn handle(&self) -> *mut core::ffi::c_void { self.0 }\n");
    push_str(&mut s, "}\n");
    push_str(&mut s, "impl Drop for ");
    push_str(&mut s, h);
    push_str(&mut s, " {\n");
    push_str(&mut s, "    fn drop(&mut self) { if !self.0.is_null() { unsafe { ");
    push_str(&mut s, destroy_fn);
    push_str(&mut s, "(self.0) } } }\n");
    push_str(&mut s, "}\n");
    push_str(&mut s, "impl std::fmt::Debug for ");
    push_str(&mut s, h);
    push_str(&mut s, " {\n");
    push_str(&mut s, "    fn fmt(&self, f: &mut std::fmt::Formatter<'_>) -> std::fmt::Result { write!(f, \"ErrorHandle({:?})\", self.0) }\n");
    push_str(&mut s, "}\n");
    push_str(&mut s, "\n");
    s
}

/// The getter of field `i` of a data-carrying variant: it reads the payload through the error handle and returns it borrowed.
pub open spec fn payload_getter_text(i: nat, borrow_ty: Seq<char>, payload_fn: Seq<char>) -> Seq<char> {
    "    pub fn field_"@ + decimal(i) + "(&self) -> "@ + borrow_ty + " {\n"@ + "        let mut __buf = std::mem::MaybeUninit::<ffier::FfierBytes>::uninit();\n"@ + "        unsafe { "@ + payload_fn + "(self.0.handle() as *const core::ffi::c_void, __buf.as_mut_ptr() as *mut core::ffi::c_void, core::mem::size_of::<ffier::FfierBytes>()) };\n"@ + "        unsafe { <"@ + borrow_ty + " as FfiType>::from_c(__buf.assume_init()) }\n"@ + "    }\n"@
}

fn payload_getter(i: u64, borrow_ty: &str, payload_fn: &str) -> (r: String)
    ensures
        r@ == payload_getter_text(i as nat, borrow_ty@, payload_fn@),
{
    let mut s = owned("    pub fn field_");
    push_str(&mut s, decimal_string(i).as_str());
    push_str(&mut s, "(&self) -> ");
    push_str(&mut s, borrow_ty);
    push_str(&mut s, " {\n");
    push_str(&mut s, "        let mut __buf = std::mem::MaybeUninit::<ffier::FfierBytes>::uninit();\n");
    push_str(&mut s, "        unsafe { ");
    push_str(&mut s, payload_fn);
    push_str(&mut s, "(self.0.handle() as *const core::ffi::c_void, __buf.as_mut_ptr() as *mut core::ffi::c_void, core::mem::size_of::<ffier::FfierBytes>()) };\n");
    push_str(&mut s, "        unsafe { <");
    push_str(&mut s, borrow_ty);
    push_str(&mut s, " as FfiType>::from_c(__buf.assume_init()) }\n");
    push_str(&mut s, "    }\n");
    s
}

/// The opening of the data struct of a data-carrying variant.
pub open spec fn data_struct_head_text(data_name: Seq<char>, h: Seq<char>) -> Seq<char> {
    "pub struct "@ + data_name + "("@ + h + ");\n"@ + "impl "@ + data_name + " {\n"@
}

fn data_struct_head(data_name: &str, h: &str) -> (r: String)
    ensures
        r@ == data_struct_head_text(data_name@, h@),
{
    let mut s = owned("pub struct ");
    push_str(&mut s, data_name);
    push_str(&mut s, "(");
    push_str(&mut s, h);
    push_str(&mut s, ");\n");
    push_str(&mut s, "impl ");
    push_str(&mut s, data_name);
    push_str(&mut s, " {\n");
    s
}

/// The closing of the data struct of a data-carrying variant, with its `Debug` impl.
pub open spec fn data_struct_tail_text(data_name: Seq<char>, variant: Seq<char>) -> Seq<char> {
    "}\n"@ + "impl std::fmt::Debug for "@ + data_name + " {\n"@ + "    fn fmt(&self, f: &mut std::fmt::Formatter<'_>) -> std::fmt::Result { write!(f, \""@ + variant + "(...)\") }\n"@ + "}\n"@ + "\n"@
}

fn data_struct_tail(data_name: &str, variant: &str) -> (r: String)
    ensures
        r@ == data_struct_tail_text(data_name@, variant@),
{
    let mut s = owned("}\n");
    push_str(&mut s, "impl std::fmt::Debug for ");
    push_str(&mut s, data_name);
    push_str(&mut s, " {\n");
    push_str(&mut s, "    fn fmt(&self, f: &mut std::fmt::Formatter<'_>) -> std::fmt::Result { write!(f, \"");
    push_str(&mut s, variant);
    push_str(&mut s, "(...)\") }\n");
    push_str(&mut s, "}\n");
    push_str(&mut s, "\n");
    s
}

/// The opening of the error enum.
pub open spec fn enum_head_text(e: Seq<char>) -> Seq<char> {
    "#[derive(Debug)]\n"@ + "pub enum "@ + e + " {\n"@
}

fn enum_head(e: &str) -> (r: String)
    ensures
        r@ == enum_head_text(e@),
{
    let mut s = owned("#[derive(Debug)]\n");
    push_str(&mut s, "pub enum ");
    push_str(&mut s, e);
    push_str(&mut s, " {\n");
    s
}

/// A variant of the error enum, holding the handle or the variant's data struct.
pub open spec fn enum_variant_line_text(variant: Seq<char>, holder: Seq<char>) -> Seq<char> {
    "    "@ + variant + "("@ + holder + "),\n"@
}

fn enum_variant_line(variant: &str, holder: &str) -> (r: String)
    ensures
        r@ == enum_variant_line_text(variant@, holder@),
{
    let mut s = owned("    ");
    push_str(&mut s, variant);
    push_str(&mut s, "(");
    push_str(&mut s, holder);
    push_str(&mut s, "),\n");
    s
}

/// The opening of the error type's `impl` and of `from_ffi`.
pub open spec fn from_ffi_head_text(e: Seq<char>, h: Seq<char>) -> Seq<char> {
    "}\n"@ + "\n"@ + "impl "@ + e + " {\n"@ + "    pub fn from_ffi(r: ffier::FfierResult, err_handle: *mut core::ffi::c_void) -> Self {\n"@ + "        let code = ffier::ffier_result_code(r);\n"@ + "        let handle = "@ + h + "(err_handle);\n"@ + "        match code {\n"@
}

fn from_ffi_head(e: &str, h: &str) -> (r: String)
    ensures
        r@ == from_ffi_head_text(e@, h@),
{
    let mut s = owned("}\n");
    push_str(&mut s, "\n");
    push_str(&mut s, "impl ");
    push_str(&mut s, e);
    push_str(&mut s, " {\n");
    push_str(&mut s, "    pub fn from_ffi(r: ffier::FfierResult, err_handle: *mut core::ffi::c_void) -> Self {\n");
    push_str(&mut s, "        let code = ffier::ffier_result_code(r);\n");
    push_str(&mut s, "        let handle = ");
    push_str(&mut s, h);
    push_str(&mut s, "(err_handle);\n");
    push_str(&mut s, "        match code {\n");
    s
}

/// The `from_ffi` arm of a variant: its code maps to the variant, wrapping the handle in the data struct for a data-carrying variant.
pub open spec fn from_ffi_arm_text(code: nat, variant: Seq<char>, wrapped: Seq<char>) -> Seq<char> {
    "            "@ + decimal(code) + "u32 => Self::"@ + variant + "("@ + wrapped + "),\n"@
}

fn from_ffi_arm(code: u64, variant: &str, wrapped: &str) -> (r: String)
    ensures
        r@ == from_ffi_arm_text(code as nat, variant@, wrapped@),
{
    let mut s = owned("            ");
    push_str(&mut s, decimal_string(code).as_str());
    push_str(&mut s, "u32 => Self::");
    push_str(&mut s, variant);
    push_str(&mut s, "(");
    push_str(&mut s, wrapped);
    push_str(&mut s, "),\n");
    s
}

/// The end of `from_ffi` (unknown codes panic) and the opening of `handle_ptr`.
pub open spec fn from_ffi_tail_text(e: Seq<char>) -> Seq<char> {
    "            other => panic!(\"unknown {} error code {}\", \""@ + e + "\", other),\n"@ + "        }\n"@ + "    }\n"@ + "    fn handle_ptr(&self) -> *mut core::ffi::c_void {\n"@ + "        match self {\n"@
}

fn from_ffi_tail(e: &str) -> (r: String)
    ensures
        r@ == from_ffi_tail_text(e@),
{
    let mut s = owned("            other => panic!(\"unknown {} error code {}\", \"");
    push_str(&mut s, e);
    push_str(&mut s, "\", other),\n");
    push_str(&mut s, "        }\n");
    push_str(&mut s, "    }\n");
    push_str(&mut s, "    fn handle_ptr(&self) -> *mut core::ffi::c_void {\n");
    push_str(&mut s, "        match self {\n");
    s
}

/// The `handle_ptr` arm of a variant.
pub open spec fn handle_ptr_arm_text(variant: Seq<char>, has_data: bool) -> Seq<char> {
    "            Self::"@ + variant + (if has_data { "(d) => d.0.handle(),\n"@ } else { "(h) => h.handle(),\n"@ })
}

fn handle_ptr_arm(variant: &str, has_data: bool) -> (r: String)
    ensures
        r@ == handle_ptr_arm_text(variant@, has_data),
{
    let mut s = owned("            Self::");
    push_str(&mut s, variant);
    push_str(&mut s, (if has_data { "(d) => d.0.handle(),\n" } else { "(h) => h.handle(),\n" }));
    s
}

/// The end of the error type's `impl`, and its `Display`: the message is written through the `PushStr` vtable into the formatter.
pub open spec fn error_display_block_text(e: Seq<char>, vtable: Seq<char>, tag: nat, message_fn: Seq<char>) -> Seq<char> {
    "        }\n"@ + "    }\n"@ + "}\n"@ + "\n"@ + "impl std::fmt::Display for "@ + e + " {\n"@ + "    fn fmt(&self, f: &mut std::fmt::Formatter<'_>) -> std::fmt::Result {\n"@ + "        struct FmtWriter(*mut core::ffi::c_void);\n"@ + "        impl PushStr for FmtWriter {\n"@ + "            fn push(&mut self, s: &str) -> bool { unsafe { (&mut *(self.0 as *mut std::fmt::Formatter<'_>)).write_str(s).is_ok() } }\n"@ + "        }\n"@ + "        let mut __writer = FmtWriter(f as *mut std::fmt::Formatter<'_> as *mut core::ffi::c_void);\n"@ + "        let __vtable: &'static "@ + vtable + " = FmtWriter::__ffier_vtable();\n"@ + "        let mut __temp = ffier::FfierHandle {\n"@ + "            type_tag: "@ + decimal(tag) + "u32,\n"@ + "            metadata: 0,\n"@ + "            value: ffier::VtableHandle {\n"@ + "                vtable_ptr: __vtable as *const "@ + vtable + " as *const core::ffi::c_void,\n"@ + "                user_data: &mut __writer as *mut FmtWriter as *const core::ffi::c_void,\n"@ + "                vtable_size: core::mem::size_of::<"@ + vtable + ">() as u16,\n"@ + "            },\n"@ + "        };\n"@ + "        let __writer_handle = &mut __temp as *mut ffier::FfierHandle<ffier::VtableHandle> as *mut core::ffi::c_void;\n"@ + "        unsafe { "@ + message_fn + "(self.handle_ptr(), __writer_handle) };\n"@ + "        Ok(())\n"@ + "    }\n"@ + "}\n"@ + "\n"@ + "impl std::error::Error for "@ + e + " {}\n"@ + "\n"@
}

fn error_display_block(e: &str, vtable: &str, tag: u64, message_fn: &str) -> (r: String)
    ensures
        r@ == error_display_block_text(e@, vtable@, tag as nat, message_fn@),
{
    let mut s = owned("        }\n");
    push_str(&mut s, "    }\n");
    push_str(&mut s, "}\n");
    push_str(&mut s, "\n");
    push_str(&mut s, "impl std::fmt::Display for ");
    push_str(&mut s, e);
    push_str(&mut s, " {\n");
    push_str(&mut s, "    fn fmt(&self, f: &mut std::fmt::Formatter<'_>) -> std::fmt::Result {\n");
    push_str(&mut s, "        struct FmtWriter(*mut core::ffi::c_void);\n");
    push_str(&mut s, "        impl PushStr for FmtWriter {\n");
    push_str(&mut s, "            fn push(&mut self, s: &str) -> bool { unsafe { (&mut *(self.0 as *mut std::fmt::Formatter<'_>)).write_str(s).is_ok() } }\n");
    push_str(&mut s, "        }\n");
    push_str(&mut s, "        let mut __writer = FmtWriter(f as *mut std::fmt::Formatter<'_> as *mut core::ffi::c_void);\n");
    push_str(&mut s, "        let __vtable: &'static ");
    push_str(&mut s, vtable);
    push_str(&mut s, " = FmtWriter::__ffier_vtable();\n");
    push_str(&mut s, "        let mut __temp = ffier::FfierHandle {\n");
    push_str(&mut s, "            type_tag: ");
    push_str(&mut s, decimal_string(tag).as_str());
    push_str(&mut s, "u32,\n");
    push_str(&mut s, "            metadata: 0,\n");
    push_str(&mut s, "            value: ffier::VtableHandle {\n");
    push_str(&mut s, "                vtable_ptr: __vtable as *const ");
    push_str(&mut s, vtable);
    push_str(&mut s, " as *const core::ffi::c_void,\n");
    push_str(&mut s, "                user_data: &mut __writer as *mut FmtWriter as *const core::ffi::c_void,\n");
    push_str(&mut s, "                vtable_size: core::mem::size_of::<");
    push_str(&mut s, vtable);
    push_str(&mut s, ">() as u16,\n");
    push_str(&mut s, "            },\n");
    push_str(&mut s, "        };\n");
    push_str(&mut s, "        let __writer_handle = &mut __temp as *mut ffier::FfierHandle<ffier::VtableHandle> as *mut core::ffi::c_void;\n");
    push_str(&mut s, "        unsafe { ");
    push_str(&mut s, message_fn);
    push_str(&mut s, "(self.handle_ptr(), __writer_handle) };\n");
    push_str(&mut s, "        Ok(())\n");
    push_str(&mut s, "    }\n");
    push_str(&mut s, "}\n");
    push_str(&mut s, "\n");
    push_str(&mut s, "impl std::error::Error for ");
    push_str(&mut s, e);
    push_str(&mut s, " {}\n");
    push_str(&mut s, "\n");
    s
}

/// The extern declaration of the payload getter.
pub open spec fn payload_extern_block_text(payload_fn: Seq<char>) -> Seq<char> {
    "unsafe extern \"C\" {\n"@ + "    fn "@ + payload_fn + "(handle: *const core::ffi::c_void, out_buf: *mut core::ffi::c_void, buf_size: usize);\n"@ + "}\n"@ + "\n"@
}

fn payload_extern_block(payload_fn: &str) -> (r: String)
    ensures
        r@ == payload_extern_block_text(payload_fn@),
{
    let mut s = owned("unsafe extern \"C\" {\n");
    push_str(&mut s, "    fn ");
    push_str(&mut s, payload_fn);
    push_str(&mut s, "(handle: *const core::ffi::c_void, out_buf: *mut core::ffi::c_void, buf_size: usize);\n");
    push_str(&mut s, "}\n");
    push_str(&mut s, "\n");
    s
}

/// The handle wrapper of an error type: `{Error}ErrorHandle`.
pub open spec fn handle_name(e: Seq<char>) -> Seq<char> {
    e + "ErrorHandle"@
}

/// The data struct of a data-carrying variant: `{Error}{Variant}Data`.
pub open spec fn data_name(e: Seq<char>, v: Seq<char>) -> Seq<char> {
    e + v + "Data"@
}

/// The payload getter function of a library: `{prefix}_error_payload`.
pub open spec fn payload_fn_name(prefix: Seq<char>) -> Seq<char> {
    prefix + "_error_payload"@
}

/// The getters of a variant's payload fields, in order.
pub open spec fn getters_text(fields: Seq<Seq<char>>, payload_fn: Seq<char>) -> Seq<char>
    decreases fields.len(),
{
    if fields.len() == 0 {
        Seq::empty()
    } else {
        getters_text(fields.drop_last(), payload_fn) + payload_getter_text(
            (fields.len() - 1) as nat,
            fields.last(),
            payload_fn,
        )
    }
}

/// The data struct of a variant, or nothing for a unit variant.
pub open spec fn variant_data_text(e: Seq<char>, v: ClientErrorVariant, payload_fn: Seq<char>) -> Seq<char> {
    if v.field_types@.len() == 0 {
        Seq::empty()
    } else {
        data_struct_head_text(data_name(e, v.name@), handle_name(e)) + getters_text(
            strings_view(v.field_types@),
            payload_fn,
        ) + data_struct_tail_text(data_name(e, v.name@), v.name@)
    }
}

/// What a variant holds: the handle, or its data struct.
pub open spec fn variant_holder(e: Seq<char>, v: ClientErrorVariant) -> Seq<char> {
    if v.field_types@.len() == 0 {
        handle_name(e)
    } else {
        data_name(e, v.name@)
    }
}

/// What a variant's `from_ffi` arm wraps the handle in.
pub open spec fn variant_wrapped(e: Seq<char>, v: ClientErrorVariant) -> Seq<char> {
    if v.field_types@.len() == 0 {
        "handle"@
    } else {
        data_name(e, v.name@) + "(handle)"@
    }
}

/// The per-variant pieces of an error type, in variant order: `part`
/// selects data structs, enum variants, `from_ffi` arms or `handle_ptr`
/// arms.
pub open spec fn variant_part(part: ErrorPart, e: Seq<char>, v: ClientErrorVariant, payload_fn: Seq<char>) -> Seq<char> {
    match part {
        ErrorPart::DataStruct => variant_data_text(e, v, payload_fn),
        ErrorPart::EnumVariant => enum_variant_line_text(v.name@, variant_holder(e, v)),
        ErrorPart::FromFfiArm => from_ffi_arm_text(v.code as nat, v.name@, variant_wrapped(e, v)),
        ErrorPart::HandlePtrArm => handle_ptr_arm_text(v.name@, v.field_types@.len() > 0),
    }
}

/// Which per-variant piece of an error type.
#[derive(Clone, Copy, Debug, PartialEq, Eq, Structural)]
pub enum ErrorPart {
    DataStruct,
    EnumVariant,
    FromFfiArm,
    HandlePtrArm,
}

/// One kind of per-variant piece for all variants, in order.
pub open spec fn variants_part(part: ErrorPart, e: Seq<char>, vs: Seq<ClientErrorVariant>, payload_fn: Seq<char>) -> Seq<char>
    decreases vs.len(),
{
    if vs.len() == 0 {
        Seq::empty()
    } else {
        variants_part(part, e, vs.drop_last(), payload_fn) + variant_part(part, e, vs.last(), payload_fn)
    }
}

/// The client source of an error type: the handle wrapper, a data struct
/// per data-carrying variant, the enum, `from_ffi` (matching on the code),
/// `handle_ptr`, `Display` (through the library's message function),
/// `std::error::Error`, and the payload getter's declaration.
#[verifier::opaque]
pub open spec fn error_text(err: ClientErrorType, rt: ErrorRuntime) -> Seq<char> {
    let e = err.name@;
    let vs = err.variants@;
    let p = payload_fn_name(rt.prefix@);
    error_handle_block_text(handle_name(e), rt.error_destroy_fn@) + variants_part(ErrorPart::DataStruct, e, vs, p)
        + enum_head_text(e) + variants_part(ErrorPart::EnumVariant, e, vs, p) + from_ffi_head_text(
        e,
        handle_name(e),
    ) + variants_part(ErrorPart::FromFfiArm, e, vs, p) + from_ffi_tail_text(e) + variants_part(
        ErrorPart::HandlePtrArm,
        e,
        vs,
        p,
    ) + error_display_block_text(e, rt.push_str_vtable_name@, rt.push_str_type_tag as nat, rt.error_message_fn@)
        + payload_extern_block_text(p)
}

fn getters(fields: &Vec<String>, payload_fn: &str) -> (r: String)
    ensures
        r@ == getters_text(strings_view(fields@), payload_fn@),
{
    let ghost fv = strings_view(fields@);
    let mut s = String::new();
    let mut i: usize = 0;
    assert(fv.take(0) =~= Seq::<Seq<char>>::empty());
    while i < fields.len()
        invariant
            i <= fields@.len(),
            fv == strings_view(fields@),
            s@ == getters_text(fv.take(i as int), payload_fn@),
        decreases fields@.len() - i,
    {
        let g = payload_getter(i as u64, fields[i].as_str(), payload_fn);
        push_str(&mut s, g.as_str());
        i = i + 1;
        assert(fv.take(i as int).drop_last() =~= fv.take(i - 1));
        assert(fv.take(i as int).last() == fields@[i - 1]@);
    }
    assert(fv.take(fv.len() as int) =~= fv);
    s
}

fn variant_piece(part: ErrorPart, e: &str, v: &ClientErrorVariant, payload_fn: &str) -> (r: String)
    ensures
        r@ == variant_part(part, e@, *v, payload_fn@),
{
    let has_data = v.field_types.len() > 0;
    let mut h = owned(e);
    push_str(&mut h, "ErrorHandle");
    let mut dn = owned(e);
    push_str(&mut dn, v.name.as_str());
    push_str(&mut dn, "Data");
    match part {
        ErrorPart::DataStruct => {
            if !has_data {
                String::new()
            } else {
                let mut s = data_struct_head(dn.as_str(), h.as_str());
                let g = getters(&v.field_types, payload_fn);
                push_str(&mut s, g.as_str());
                let t = data_struct_tail(dn.as_str(), v.name.as_str());
                push_str(&mut s, t.as_str());
                s
            }
        },
        ErrorPart::EnumVariant => {
            if has_data {
                enum_variant_line(v.name.as_str(), dn.as_str())
            } else {
                enum_variant_line(v.name.as_str(), h.as_str())
            }
        },
        ErrorPart::FromFfiArm => {
            if has_data {
                let mut w = dn.clone();
                push_str(&mut w, "(handle)");
                from_ffi_arm(v.code as u64, v.name.as_str(), w.as_str())
            } else {
                from_ffi_arm(v.code as u64, v.name.as_str(), "handle")
            }
        },
        ErrorPart::HandlePtrArm => handle_ptr_arm(v.name.as_str(), has_data),
    }
}

fn variants_piece(part: ErrorPart, e: &str, vs: &Vec<ClientErrorVariant>, payload_fn: &str) -> (r: String)
    ensures
        r@ == variants_part(part, e@, vs@, payload_fn@),
{
    let mut s = String::new();
    let mut i: usize = 0;
    assert(vs@.take(0) =~= Seq::<ClientErrorVariant>::empty());
    while i < vs.len()
        invariant
            i <= vs@.len(),
            s@ == variants_part(part, e@, vs@.take(i as int), payload_fn@),
        decreases vs@.len() - i,
    {
        let t = variant_piece(part, e, &vs[i], payload_fn);
        push_str(&mut s, t.as_str());
        i = i + 1;
        assert(vs@.take(i as int).drop_last() =~= vs@.take(i - 1));
        assert(vs@.take(i as int).last() == vs@[i - 1]);
    }
    assert(vs@.take(vs@.len() as int) =~= vs@);
    s
}

/// Appends the client source of an error type.
pub fn emit_error(out: &mut String, err: &ClientErrorType, rt: &ErrorRuntime)
    ensures
        final(out)@ == old(out)@ + error_text(*err, *rt),
{
    let e = err.name.as_str();
    let mut h = owned(e);
    push_str(&mut h, "ErrorHandle");
    let mut p = rt.prefix.clone();
    push_str(&mut p, "_error_payload");
    let b1 = error_handle_block(h.as_str(), rt.error_destroy_fn.as_str());
    let b2 = variants_piece(ErrorPart::DataStruct, e, &err.variants, p.as_str());
    let b3 = enum_head(e);
    let b4 = variants_piece(ErrorPart::EnumVariant, e, &err.variants, p.as_str());
    let b5 = from_ffi_head(e, h.as_str());
    let b6 = variants_piece(ErrorPart::FromFfiArm, e, &err.variants, p.as_str());
    let b7 = from_ffi_tail(e);
    let b8 = variants_piece(ErrorPart::HandlePtrArm, e, &err.variants, p.as_str());
    let b9 = error_display_block(
        e,
        rt.push_str_vtable_name.as_str(),
        rt.push_str_type_tag as u64,
        rt.error_message_fn.as_str(),
    );
    let b10 = payload_extern_block(p.as_str());
    let mut s = b1;
    push_str(&mut s, b2.as_str());
    push_str(&mut s, b3.as_str());
    push_str(&mut s, b4.as_str());
    push_str(&mut s, b5.as_str());
    push_str(&mut s, b6.as_str());
    push_str(&mut s, b7.as_str());
    push_str(&mut s, b8.as_str());
    push_str(&mut s, b9.as_str());
    push_str(&mut s, b10.as_str());
    reveal(error_text);
    push_str(out, s.as_str());
}

// ---------------------------------------------------------------------------
// Enums and bitflags
// ---------------------------------------------------------------------------

/// The decimal representation of a signed number, as a `String`.
pub fn signed_decimal_string(n: i64) -> (r: String)
    ensures
        r@ == signed_decimal(n as int),
{
    let mut s = String::new();
    push_signed_decimal(&mut s, n);
    s
}

/// The opening of a C-style enum with its representation.
pub open spec fn enum_head_block_text(name: Seq<char>, repr: Seq<char>) -> Seq<char> {
    "#[derive(Debug, Clone, Copy, PartialEq, Eq)]\n"@ + "#[repr("@ + repr + ")]\n"@ + "pub enum "@ + name + " {\n"@
}

fn enum_head_block(name: &str, repr: &str) -> (r: String)
    ensures
        r@ == enum_head_block_text(name@, repr@),
{
    let mut s = owned("#[derive(Debug, Clone, Copy, PartialEq, Eq)]\n");
    push_str(&mut s, "#[repr(");
    push_str(&mut s, repr);
    push_str(&mut s, ")]\n");
    push_str(&mut s, "pub enum ");
    push_str(&mut s, name);
    push_str(&mut s, " {\n");
    s
}

/// An enum variant with its discriminant.
pub open spec fn enum_value_line_text(variant: Seq<char>, value: int) -> Seq<char> {
    "    "@ + variant + " = "@ + signed_decimal(value) + ",\n"@
}

fn enum_value_line(variant: &str, value: i64) -> (r: String)
    ensures
        r@ == enum_value_line_text(variant@, value as int),
{
    let mut s = owned("    ");
    push_str(&mut s, variant);
    push_str(&mut s, " = ");
    push_str(&mut s, signed_decimal_string(value).as_str());
    push_str(&mut s, ",\n");
    s
}

/// The end of the enum and the opening of its `FfiType` impl.
pub open spec fn enum_ffi_head_text(name: Seq<char>, repr: Seq<char>) -> Seq<char> {
    "}\n"@ + "\n"@ + "impl FfiType for "@ + name + " {\n"@ + "    type CRepr = "@ + repr + ";\n"@ + "    const C_TYPE_NAME: &'static str = \""@ + name + "\";\n"@ + "    fn into_c(self) -> "@ + repr + " { self as "@ + repr + " }\n"@ + "    unsafe fn from_c(repr: "@ + repr + ") -> Self {\n"@ + "        match repr {\n"@
}

fn enum_ffi_head(name: &str, repr: &str) -> (r: String)
    ensures
        r@ == enum_ffi_head_text(name@, repr@),
{
    let mut s = owned("}\n");
    push_str(&mut s, "\n");
    push_str(&mut s, "impl FfiType for ");
    push_str(&mut s, name);
    push_str(&mut s, " {\n");
    push_str(&mut s, "    type CRepr = ");
    push_str(&mut s, repr);
    push_str(&mut s, ";\n");
    push_str(&mut s, "    const C_TYPE_NAME: &'static str = \"");
    push_str(&mut s, name);
    push_str(&mut s, "\";\n");
    push_str(&mut s, "    fn into_c(self) -> ");
    push_str(&mut s, repr);
    push_str(&mut s, " { self as ");
    push_str(&mut s, repr);
    push_str(&mut s, " }\n");
    push_str(&mut s, "    unsafe fn from_c(repr: ");
    push_str(&mut s, repr);
    push_str(&mut s, ") -> Self {\n");
    push_str(&mut s, "        match repr {\n");
    s
}

/// The `from_c` arm of a variant.
pub open spec fn enum_match_arm_text(variant: Seq<char>, value: int) -> Seq<char> {
    "            "@ + signed_decimal(value) + " => Self::"@ + variant + ",\n"@
}

fn enum_match_arm(variant: &str, value: i64) -> (r: String)
    ensures
        r@ == enum_match_arm_text(variant@, value as int),
{
    let mut s = owned("            ");
    push_str(&mut s, signed_decimal_string(value).as_str());
    push_str(&mut s, " => Self::");
    push_str(&mut s, variant);
    push_str(&mut s, ",\n");
    s
}

/// The end of `from_c` (unknown discriminants panic) and of the `FfiType` impl.
pub open spec fn enum_ffi_tail_text(name: Seq<char>, repr: Seq<char>) -> Seq<char> {
    "            unknown => panic!(\"invalid "@ + name + " discriminant: {}\", unknown),\n"@ + "        }\n"@ + "    }\n"@ + "    fn borrow_as_c(&self) -> "@ + repr + " { *self as "@ + repr + " }\n"@ + "}\n"@ + "\n"@
}

fn enum_ffi_tail(name: &str, repr: &str) -> (r: String)
    ensures
        r@ == enum_ffi_tail_text(name@, repr@),
{
    let mut s = owned("            unknown => panic!(\"invalid ");
    push_str(&mut s, name);
    push_str(&mut s, " discriminant: {}\", unknown),\n");
    push_str(&mut s, "        }\n");
    push_str(&mut s, "    }\n");
    push_str(&mut s, "    fn borrow_as_c(&self) -> ");
    push_str(&mut s, repr);
    push_str(&mut s, " { *self as ");
    push_str(&mut s, repr);
    push_str(&mut s, " }\n");
    push_str(&mut s, "}\n");
    push_str(&mut s, "\n");
    s
}

/// The opening of a `bitflags!` type.
pub open spec fn bitflags_head_text(name: Seq<char>, repr: Seq<char>) -> Seq<char> {
    "bitflags::bitflags! {\n"@ + "    #[derive(Debug, Clone, Copy, PartialEq, Eq)]\n"@ + "    pub struct "@ + name + ": "@ + repr + " {\n"@
}

fn bitflags_head(name: &str, repr: &str) -> (r: String)
    ensures
        r@ == bitflags_head_text(name@, repr@),
{
    let mut s = owned("bitflags::bitflags! {\n");
    push_str(&mut s, "    #[derive(Debug, Clone, Copy, PartialEq, Eq)]\n");
    push_str(&mut s, "    pub struct ");
    push_str(&mut s, name);
    push_str(&mut s, ": ");
    push_str(&mut s, repr);
    push_str(&mut s, " {\n");
    s
}

/// A flag constant.
pub open spec fn bitflags_const_line_text(flag: Seq<char>, value: int) -> Seq<char> {
    "        const "@ + flag + " = "@ + signed_decimal(value) + ";\n"@
}

fn bitflags_const_line(flag: &str, value: i64) -> (r: String)
    ensures
        r@ == bitflags_const_line_text(flag@, value as int),
{
    let mut s = owned("        const ");
    push_str(&mut s, flag);
    push_str(&mut s, " = ");
    push_str(&mut s, signed_decimal_string(value).as_str());
    push_str(&mut s, ";\n");
    s
}

/// The end of a `bitflags!` type and its `FfiType` impl.
pub open spec fn bitflags_tail_text(name: Seq<char>, repr: Seq<char>) -> Seq<char> {
    "    }\n"@ + "}\n"@ + "\n"@ + "impl FfiType for "@ + name + " {\n"@ + "    type CRepr = "@ + repr + ";\n"@ + "    const C_TYPE_NAME: &'static str = \""@ + name + "\";\n"@ + "    fn into_c(self) -> "@ + repr + " { self.bits() }\n"@ + "    unsafe fn from_c(repr: "@ + repr + ") -> Self { Self::from_bits_retain(repr) }\n"@ + "    fn borrow_as_c(&self) -> "@ + repr + " { self.bits() }\n"@ + "}\n"@ + "\n"@
}

fn bitflags_tail(name: &str, repr: &str) -> (r: String)
    ensures
        r@ == bitflags_tail_text(name@, repr@),
{
    let mut s = owned("    }\n");
    push_str(&mut s, "}\n");
    push_str(&mut s, "\n");
    push_str(&mut s, "impl FfiType for ");
    push_str(&mut s, name);
    push_str(&mut s, " {\n");
    push_str(&mut s, "    type CRepr = ");
    push_str(&mut s, repr);
    push_str(&mut s, ";\n");
    push_str(&mut s, "    const C_TYPE_NAME: &'static str = \"");
    push_str(&mut s, name);
    push_str(&mut s, "\";\n");
    push_str(&mut s, "    fn into_c(self) -> ");
    push_str(&mut s, repr);
    push_str(&mut s, " { self.bits() }\n");
    push_str(&mut s, "    unsafe fn from_c(repr: ");
    push_str(&mut s, repr);
    push_str(&mut s, ") -> Self { Self::from_bits_retain(repr) }\n");
    push_str(&mut s, "    fn borrow_as_c(&self) -> ");
    push_str(&mut s, repr);
    push_str(&mut s, " { self.bits() }\n");
    push_str(&mut s, "}\n");
    push_str(&mut s, "\n");
    s
}

/// The variant lines of an enum, in order.
pub open spec fn enum_values_text(vs: Seq<EnumVariant>) -> Seq<char>
    decreases vs.len(),
{
    if vs.len() == 0 {
        Seq::empty()
    } else {
        enum_values_text(vs.drop_last()) + enum_value_line_text(vs.last().name@, vs.last().value as int)
    }
}

/// The `from_c` arms of an enum, in order.
pub open spec fn enum_arms_text(vs: Seq<EnumVariant>) -> Seq<char>
    decreases vs.len(),
{
    if vs.len() == 0 {
        Seq::empty()
    } else {
        enum_arms_text(vs.drop_last()) + enum_match_arm_text(vs.last().name@, vs.last().value as int)
    }
}

/// The flag constants of a bitflags type, in order.
pub open spec fn flag_consts_text(vs: Seq<EnumVariant>) -> Seq<char>
    decreases vs.len(),
{
    if vs.len() == 0 {
        Seq::empty()
    } else {
        flag_consts_text(vs.drop_last()) + bitflags_const_line_text(vs.last().name@, vs.last().value as int)
    }
}

/// The client source of a C-style enum with representation `repr`: the
/// enum with its discriminants and its `FfiType` impl.
pub open spec fn enum_type_text(en: EnumType, repr: Seq<char>) -> Seq<char> {
    enum_head_block_text(en.name@, repr) + enum_values_text(en.variants@) + enum_ffi_head_text(en.name@, repr)
        + enum_arms_text(en.variants@) + enum_ffi_tail_text(en.name@, repr)
}

/// The client source of a bitflags type with representation `repr`.
pub open spec fn bitflags_type_text(bf: EnumType, repr: Seq<char>) -> Seq<char> {
    bitflags_head_text(bf.name@, repr) + flag_consts_text(bf.variants@) + bitflags_tail_text(bf.name@, repr)
}

/// Which per-variant line of an enum.
#[derive(Clone, Copy, Debug, PartialEq, Eq, Structural)]
pub enum EnumLine {
    Value,
    Arm,
    Flag,
}

/// The per-variant lines of one kind, in order.
pub open spec fn enum_lines_text(kind: EnumLine, vs: Seq<EnumVariant>) -> Seq<char> {
    match kind {
        EnumLine::Value => enum_values_text(vs),
        EnumLine::Arm => enum_arms_text(vs),
        EnumLine::Flag => flag_consts_text(vs),
    }
}

fn enum_lines(kind: EnumLine, vs: &Vec<EnumVariant>) -> (r: String)
    ensures
        r@ == enum_lines_text(kind, vs@),
{
    let mut s = String::new();
    let mut i: usize = 0;
    assert(vs@.take(0) =~= Seq::<EnumVariant>::empty());
    while i < vs.len()
        invariant
            i <= vs@.len(),
            s@ == enum_lines_text(kind, vs@.take(i as int)),
        decreases vs@.len() - i,
    {
        let v = &vs[i];
        let line = match kind {
            EnumLine::Value => enum_value_line(v.name.as_str(), v.value),
            EnumLine::Arm => enum_match_arm(v.name.as_str(), v.value),
            EnumLine::Flag => bitflags_const_line(v.name.as_str(), v.value),
        };
        push_str(&mut s, line.as_str());
        i = i + 1;
        assert(vs@.take(i as int).drop_last() =~= vs@.take(i - 1));
        assert(vs@.take(i as int).last() == vs@[i - 1]);
    }
    assert(vs@.take(vs@.len() as int) =~= vs@);
    s
}

/// Appends the client source of a C-style enum.
pub fn emit_enum_type(out: &mut String, en: &EnumType, repr: &str)
    ensures
        final(out)@ == old(out)@ + enum_type_text(*en, repr@),
{
    let name = en.name.as_str();
    let mut s = enum_head_block(name, repr);
    let values = enum_lines(EnumLine::Value, &en.variants);
    push_str(&mut s, values.as_str());
    let mid = enum_ffi_head(name, repr);
    push_str(&mut s, mid.as_str());
    let arms = enum_lines(EnumLine::Arm, &en.variants);
    push_str(&mut s, arms.as_str());
    let tail = enum_ffi_tail(name, repr);
    push_str(&mut s, tail.as_str());
    push_str(out, s.as_str());
}

/// Appends the client source of a bitflags type.
pub fn emit_bitflags_type(out: &mut String, bf: &EnumType, repr: &str)
    ensures
        final(out)@ == old(out)@ + bitflags_type_text(*bf, repr@),
{
    let name = bf.name.as_str();
    let mut s = bitflags_head(name, repr);
    let flags = enum_lines(EnumLine::Flag, &bf.variants);
    push_str(&mut s, flags.as_str());
    let tail = bitflags_tail(name, repr);
    push_str(&mut s, tail.as_str());
    push_str(out, s.as_str());
}

// ---------------------------------------------------------------------------
// Command line of the client generator
// ---------------------------------------------------------------------------

/// The command line of the client generator: the schema file and whether
/// to declare the library's symbols weak.
pub struct ClientArgs {
    pub json_file: String,
    pub weak: bool,
}

/// A command line the client generator refuses.
#[derive(Debug, PartialEq, Eq)]
pub enum UsageError {
    /// An argument starting with `-` other than `--weak`.
    UnknownFlag(String),
    /// A second schema file.
    UnexpectedArgument(String),
    /// No schema file.
    MissingJsonFile,
}

/// The usage line of the client generator.
pub open spec fn usage_text() -> Seq<char> {
    "Usage: ffier-gen-rust-client [--weak] <json-file>"@
}

/// The message printed for a usage error.
pub open spec fn usage_error_text(e: UsageError) -> Seq<char> {
    match e {
        UsageError::UnknownFlag(a) => "unknown flag: "@ + a@ + "\n"@ + usage_text(),
        UsageError::UnexpectedArgument(a) => "unexpected argument: "@ + a@ + "\n"@ + usage_text(),
        UsageError::MissingJsonFile => usage_text(),
    }
}

impl UsageError {
    /// The message to print for the error.
    pub fn message(&self) -> (r: String)
        ensures
            r@ == usage_error_text(*self),
    {
        match self {
            UsageError::UnknownFlag(a) => {
                let mut s = owned("unknown flag: ");
                push_str(&mut s, a.as_str());
                push_str(&mut s, "\n");
                push_str(&mut s, "Usage: ffier-gen-rust-client [--weak] <json-file>");
                s
            },
            UsageError::UnexpectedArgument(a) => {
                let mut s = owned("unexpected argument: ");
                push_str(&mut s, a.as_str());
                push_str(&mut s, "\n");
                push_str(&mut s, "Usage: ffier-gen-rust-client [--weak] <json-file>");
                s
            },
            UsageError::MissingJsonFile => owned("Usage: ffier-gen-rust-client [--weak] <json-file>"),
        }
    }
}

/// The state after reading some arguments: the schema file and the weak
/// flag seen so far, or the first error.
pub open spec fn args_step(st: Result<(Option<Seq<char>>, bool), UsageError>, arg: String) -> Result<(Option<Seq<char>>, bool), UsageError> {
    match st {
        Err(e) => Err(e),
        Ok((file, weak)) => if arg@ == "--weak"@ {
            Ok((file, true))
        } else if arg@.len() > 0 && arg@[0] == '-' {
            Err(UsageError::UnknownFlag(arg))
        } else if file is Some {
            Err(UsageError::UnexpectedArgument(arg))
        } else {
            Ok((Some(arg@), weak))
        },
    }
}

/// The state after reading `args` in order.
pub open spec fn args_fold(args: Seq<String>) -> Result<(Option<Seq<char>>, bool), UsageError>
    decreases args.len(),
{
    if args.len() == 0 {
        Ok((None, false))
    } else {
        args_step(args_fold(args.drop_last()), args.last())
    }
}

/// Reads the command line of the client generator (`args[0]` is the
/// program name): `--weak` may appear anywhere, exactly one schema file is
/// required, any other flag is refused.
pub fn parse_client_args(args: &[String]) -> (r: Result<ClientArgs, UsageError>)
    ensures
        args@.len() == 0 ==> r == Err::<ClientArgs, UsageError>(UsageError::MissingJsonFile),
        args@.len() > 0 ==> match args_fold(args@.skip(1)) {
            Err(e) => r == Err::<ClientArgs, UsageError>(e),
            Ok((None, _)) => r == Err::<ClientArgs, UsageError>(UsageError::MissingJsonFile),
            Ok((Some(f), w)) => (r matches Ok(a) && a.json_file@ == f && a.weak == w),
        },
{
    let mut json_file: Option<String> = None;
    let mut weak = false;
    if args.len() == 0 {
        return Err(UsageError::MissingJsonFile);
    }
    let ghost rest = args@.skip(1);
    assert(rest.take(0) =~= Seq::<String>::empty());
    let mut i: usize = 1;
    while i < args.len()
        invariant
            1 <= i <= args@.len(),
            rest == args@.skip(1),
            args_fold(rest.take(i - 1)) == Ok::<(Option<Seq<char>>, bool), UsageError>((
                match json_file {
                    Some(f) => Some(f@),
                    None => None,
                },
                weak,
            )),
        decreases args@.len() - i,
    {
        let arg = &args[i];
        assert(rest.take(i as int).drop_last() =~= rest.take(i - 1));
        assert(rest.take(i as int).last() == args@[i as int]);
        let av = chars_of(arg.as_str());
        if str_eq(arg.as_str(), "--weak") {
            weak = true;
        } else if av.len() > 0 && av[0] == '-' {
            let e = UsageError::UnknownFlag(arg.clone());
            proof {
                lemma_args_fold_err(rest, i as int, e);
            }
            return Err(e);
        } else if json_file.is_some() {
            let e = UsageError::UnexpectedArgument(arg.clone());
            proof {
                lemma_args_fold_err(rest, i as int, e);
            }
            return Err(e);
        } else {
            json_file = Some(arg.clone());
        }
        i = i + 1;
    }
    assert(rest.take(args@.len() - 1) =~= rest);
    match json_file {
        Some(f) => Ok(ClientArgs { json_file: f, weak }),
        None => Err(UsageError::MissingJsonFile),
    }
}

/// Once an error is reached, later arguments do not change it.
proof fn lemma_args_fold_err(args: Seq<String>, k: int, e: UsageError)
    requires
        0 <= k <= args.len(),
        args_fold(args.take(k)) == Err::<(Option<Seq<char>>, bool), UsageError>(e),
    ensures
        args_fold(args) == Err::<(Option<Seq<char>>, bool), UsageError>(e),
    decreases args.len() - k,
{
    if k < args.len() {
        assert(args.take(k + 1).drop_last() =~= args.take(k));
        lemma_args_fold_err(args, k + 1, e);
    } else {
        assert(args.take(k) =~= args);
    }
}

} // verus!
