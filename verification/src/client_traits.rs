//! The Rust client source of the library's traits: traits that client code
//! implements (with their vtables and trampolines), and the library's own
//! impls of traits for exported types.

use vstd::prelude::*;
use crate::client_funcs::{emit_ffi_call_return, ffi_call_return_text};
use crate::client_method::{from_c, ret_rust_type, rust_type_of};
use crate::client_sig::{
    build_dispatch_extern_sig, build_ffi_param_args, build_trait_method_sig, emit_slice_pre_bindings, extern_return, extern_sig,
    handle_param, method_lifetimes, method_lifetimes_text, params_items, push_extern_param_types, push_extern_params, push_return_and_out_param_types,
    push_return_and_out_params, slice_bindings_text, trait_method_sig, ClientParam, ClientParamType, MethodReturn, ParamList, TypeText,
};
use crate::header::Receiver;
use crate::schema::{non_static, non_static_of, TypeEntryView, TypeRegistry};
use crate::text::{decimal, join_spec, join_strings, owned, push_decimal, push_str, str_eq, strings_view};

verus! {

// ---------------------------------------------------------------------------
// Trait methods
// ---------------------------------------------------------------------------

/// Where a trait method sits: its dispatch function, whether the trait
/// gives it a default body, and its vtable slot.
pub struct TraitSlot {
    pub ffi_name: String,
    pub has_default: bool,
    pub index: usize,
}

/// A method of a trait or trait impl as the client sees it.
pub struct ClientTraitMethod {
    pub name: String,
    pub receiver: Receiver,
    pub params: Vec<ClientParam>,
    pub ret: MethodReturn,
    /// Where the method sits in the trait (none for a method in another
    /// context).
    pub slot: Option<TraitSlot>,
}

/// The signature of a trait method.
pub open spec fn tm_sig(m: ClientTraitMethod) -> Seq<char> {
    trait_method_sig(
        m.name@,
        m.receiver,
        m.params@,
        match m.ret {
            MethodReturn::Void => None,
            _ => Some(ret_rust_type(m.ret)),
        },
    )
}

fn tm_sig_string(m: &ClientTraitMethod) -> (r: String)
    ensures
        r@ == tm_sig(*m),
{
    match &m.ret {
        MethodReturn::Void => build_trait_method_sig(m.name.as_str(), m.receiver, m.params.as_slice(), None),
        _ => {
            let ty = rust_type_of(&m.ret);
            build_trait_method_sig(m.name.as_str(), m.receiver, m.params.as_slice(), Some(ty.as_str()))
        },
    }
}

/// The extern declaration of a trait method's dispatch function.
pub open spec fn dispatch_sig(ffi: Seq<char>, m: ClientTraitMethod) -> Seq<char> {
    extern_sig(ffi, seq![handle_param()], m.params@, m.ret, false)
}

/// `    pub fn <dispatch signature>;` for a trait-context method (nothing for
/// another), for each method in order.
pub open spec fn dispatch_extern_lines(ms: Seq<ClientTraitMethod>, defaults_only: bool) -> Seq<char>
    decreases ms.len(),
{
    if ms.len() == 0 {
        Seq::empty()
    } else {
        dispatch_extern_lines(ms.drop_last(), defaults_only) + match ms.last().slot {
            Some(s) => if !defaults_only || s.has_default {
                "    pub fn "@ + dispatch_sig(s.ffi_name@, ms.last()) + ";\n"@
            } else {
                Seq::empty()
            },
            None => Seq::empty(),
        }
    }
}

fn emit_dispatch_extern_lines(out: &mut String, ms: &Vec<ClientTraitMethod>, defaults_only: bool)
    ensures
        final(out)@ == old(out)@ + dispatch_extern_lines(ms@, defaults_only),
{
    let ghost o0 = out@;
    let mut i: usize = 0;
    assert(ms@.take(0) =~= Seq::<ClientTraitMethod>::empty());
    while i < ms.len()
        invariant
            i <= ms@.len(),
            out@ == o0 + dispatch_extern_lines(ms@.take(i as int), defaults_only),
        decreases ms@.len() - i,
    {
        let m = &ms[i];
        match &m.slot {
            Some(s) => if !defaults_only || s.has_default {
                let sig = build_dispatch_extern_sig(s.ffi_name.as_str(), m.params.as_slice(), &m.ret);
                push_str(out, "    pub fn ");
                push_str(out, sig.as_str());
                push_str(out, ";\n");
            },
            None => {},
        }
        i = i + 1;
        assert(ms@.take(i as int).drop_last() =~= ms@.take(i - 1));
        assert(out@ =~= o0 + dispatch_extern_lines(ms@.take(i as int), defaults_only));
    }
    assert(ms@.take(ms@.len() as int) =~= ms@);
}

// ---------------------------------------------------------------------------
// Vtable slots
// ---------------------------------------------------------------------------

/// The position in `ms` of the method occupying vtable slot `slot`: the
/// last trait-context method with that index, if any.
pub open spec fn slot_owner(ms: Seq<ClientTraitMethod>, slot: int) -> Option<int>
    decreases ms.len(),
{
    if ms.len() == 0 {
        None
    } else if (ms.last().slot matches Some(s) && s.index == slot) {
        Some(ms.len() - 1)
    } else {
        slot_owner(ms.drop_last(), slot)
    }
}

fn find_slot_owner(ms: &Vec<ClientTraitMethod>, slot: usize) -> (r: Option<usize>)
    ensures
        match r {
            Some(k) => k < ms@.len() && slot_owner(ms@, slot as int) == Some(k as int),
            None => slot_owner(ms@, slot as int) is None,
        },
{
    let mut found: Option<usize> = None;
    let mut i: usize = 0;
    assert(ms@.take(0) =~= Seq::<ClientTraitMethod>::empty());
    while i < ms.len()
        invariant
            i <= ms@.len(),
            match found {
                Some(k) => k < i && slot_owner(ms@.take(i as int), slot as int) == Some(k as int),
                None => slot_owner(ms@.take(i as int), slot as int) is None,
            },
        decreases ms@.len() - i,
    {
        let hit = match &ms[i].slot {
            Some(s) => s.index == slot,
            None => false,
        };
        if hit {
            found = Some(i);
        }
        i = i + 1;
        assert(ms@.take(i as int).drop_last() =~= ms@.take(i - 1));
        assert(ms@.take(i as int).last() == ms@[i - 1]);
    }
    assert(ms@.take(ms@.len() as int) =~= ms@);
    found
}

// ---------------------------------------------------------------------------
// Vtable structs
// ---------------------------------------------------------------------------

/// The function pointer field of a method in a vtable struct.
pub open spec fn vtable_field_text(m: ClientTraitMethod) -> Seq<char> {
    let e = extern_return(m.ret, false, false);
    "    pub "@ + m.name@ + ": Option<unsafe extern \"C\" fn("@ + join_spec(
        seq!["*mut core::ffi::c_void"@] + params_items(ParamList::ExternTypes, m.params@) + e.0,
        ", "@,
    ) + ")"@ + e.1 + ">,\n"@
}

/// The field of one vtable slot.
pub open spec fn vtable_slot_text(ms: Seq<ClientTraitMethod>, slot: nat) -> Seq<char> {
    match slot_owner(ms, slot as int) {
        Some(k) => vtable_field_text(ms[k]),
        None => "    pub __reserved_"@ + decimal(slot) + ": Option<unsafe extern \"C\" fn()>,\n"@,
    }
}

/// The fields of slots `0..n`.
pub open spec fn vtable_slots_text(ms: Seq<ClientTraitMethod>, n: nat) -> Seq<char>
    decreases n,
{
    if n == 0 {
        Seq::empty()
    } else {
        vtable_slots_text(ms, (n - 1) as nat) + vtable_slot_text(ms, (n - 1) as nat)
    }
}

/// The `#[repr(C)]` vtable struct: `drop` first, then one field per slot
/// `0..=max_slot`.
pub open spec fn vtable_struct_text(vt: Seq<char>, ms: Seq<ClientTraitMethod>, max_slot: nat) -> Seq<char> {
    "#[repr(C)]\n"@ + "pub struct "@ + vt + " {\n"@ + "    pub drop: Option<unsafe extern \"C\" fn(*mut core::ffi::c_void)>,\n"@
        + vtable_slots_text(ms, max_slot + 1) + "}\n"@ + "\n"@
}

fn vtable_field(m: &ClientTraitMethod) -> (r: String)
    ensures
        r@ == vtable_field_text(*m),
{
    let mut params: Vec<String> = Vec::new();
    params.push(owned("*mut core::ffi::c_void"));
    assert(strings_view(params@) =~= seq!["*mut core::ffi::c_void"@]);
    push_extern_param_types(m.params.as_slice(), &mut params);
    let ret = push_return_and_out_param_types(&m.ret, &mut params);
    let mut s = owned("    pub ");
    push_str(&mut s, m.name.as_str());
    push_str(&mut s, ": Option<unsafe extern \"C\" fn(");
    push_str(&mut s, join_strings(params.as_slice(), ", ").as_str());
    push_str(&mut s, ")");
    push_str(&mut s, ret.as_str());
    push_str(&mut s, ">,\n");
    s
}

fn vtable_slot(ms: &Vec<ClientTraitMethod>, slot: usize) -> (r: String)
    ensures
        r@ == vtable_slot_text(ms@, slot as nat),
{
    match find_slot_owner(ms, slot) {
        Some(k) => vtable_field(&ms[k]),
        None => {
            let mut s = owned("    pub __reserved_");
            push_decimal(&mut s, slot as u64);
            push_str(&mut s, ": Option<unsafe extern \"C\" fn()>,\n");
            s
        },
    }
}

/// Writes the vtable struct of a trait.
pub fn emit_vtable_struct(out: &mut String, vt: &str, ms: &Vec<ClientTraitMethod>, max_slot: usize)
    requires
        max_slot < usize::MAX,
    ensures
        final(out)@ == old(out)@ + vtable_struct_text(vt@, ms@, max_slot as nat),
{
    let mut t = owned("#[repr(C)]\n");
    push_str(&mut t, "pub struct ");
    push_str(&mut t, vt);
    push_str(&mut t, " {\n");
    push_str(&mut t, "    pub drop: Option<unsafe extern \"C\" fn(*mut core::ffi::c_void)>,\n");
    let ghost t0 = t@;
    let mut slot: usize = 0;
    while slot <= max_slot
        invariant
            slot <= max_slot + 1,
            max_slot < usize::MAX,
            t@ == t0 + vtable_slots_text(ms@, slot as nat),
        decreases max_slot + 1 - slot,
    {
        let f = vtable_slot(ms, slot);
        push_str(&mut t, f.as_str());
        slot = slot + 1;
        assert(t@ =~= t0 + vtable_slots_text(ms@, slot as nat));
    }
    push_str(&mut t, "}\n");
    push_str(&mut t, "\n");
    assert(t@ =~= vtable_struct_text(vt@, ms@, max_slot as nat));
    push_str(out, t.as_str());
}

// ---------------------------------------------------------------------------
// Vtable constructors
// ---------------------------------------------------------------------------

/// The argument a trampoline passes to the user's method for a parameter.
pub open spec fn tramp_arg(p: ClientParam) -> Seq<char> {
    match p.param_type {
        ClientParamType::Regular { rust_type, .. } => from_c(rust_type@, p.name@),
        ClientParamType::ImplTrait { .. } => p.name@,
        ClientParamType::Slice => "&__slice_"@ + p.name@,
    }
}

/// The arguments a trampoline passes to the user's method.
pub open spec fn tramp_args(ps: Seq<ClientParam>) -> Seq<Seq<char>> {
    ps.map_values(|p: ClientParam| tramp_arg(p))
}

/// The lines that turn each `&[&str]` parameter back into a vector of
/// strings inside a trampoline.
pub open spec fn tramp_slice_lets(ps: Seq<ClientParam>) -> Seq<char>
    decreases ps.len(),
{
    if ps.len() == 0 {
        Seq::empty()
    } else {
        let p = ps.last();
        tramp_slice_lets(ps.drop_last()) + if p.param_type is Slice {
            "                    let __slice_"@ + p.name@ + ": Vec<&str> = unsafe { core::slice::from_raw_parts("@ + p.name@ + ", "@
                + p.name@ + "_len) }.iter().map(|b| unsafe { b.as_str_unchecked() }).collect();\n"@
        } else {
            Seq::empty()
        }
    }
}

/// The type tag of an error type in the registry, 0 when it has none.
pub open spec fn err_tag(reg: Map<Seq<char>, TypeEntryView>, err_type: Seq<char>) -> u32 {
    if reg.contains_key(err_type) {
        match reg[err_type].type_tag {
            Some(t) => t,
            None => 0,
        }
    } else {
        0
    }
}

/// How a trampoline hands the user's result back through the C ABI.
pub open spec fn tramp_return_text(ret: MethodReturn, reg: Map<Seq<char>, TypeEntryView>) -> Seq<char> {
    match ret {
        MethodReturn::Void => Seq::empty(),
        MethodReturn::Value(t) => "                    <"@ + t.rust_type@ + " as FfiType>::into_c(__result)\n"@,
        MethodReturn::Result { ok, err_type, handle_or_null } => "                    match __result {\n"@ + if handle_or_null {
            (match ok {
                Some(t) => "                        Ok(__ok) => <"@ + t.rust_type@ + " as FfiType>::into_c(__ok),\n"@,
                None => "                        Ok(()) => core::ptr::null_mut(),\n"@,
            }) + "                        Err(__e) => {\n"@
                + "                            unsafe { *err_out = Box::into_raw(Box::new(__e)) as *mut core::ffi::c_void };\n"@
                + "                            core::ptr::null_mut()\n"@ + "                        }\n"@
        } else {
            (match ok {
                Some(t) => "                        Ok(__ok) => {\n"@ + "                            unsafe { result.write(<"@
                    + t.rust_type@ + " as FfiType>::into_c(__ok)) };\n"@ + "                            0 // FFIER_RESULT_SUCCESS\n"@
                    + "                        }\n"@,
                None => "                        Ok(()) => 0, // FFIER_RESULT_SUCCESS\n"@,
            }) + "                        Err(__e) => {\n"@
                + "                            unsafe { *err_out = Box::into_raw(Box::new(__e)) as *mut core::ffi::c_void };\n"@
                + "                            ffier::ffier_result("@ + decimal(err_tag(reg, err_type@) as nat) + ", 1)\n"@
                + "                        }\n"@
        } + "                    }\n"@,
    }
}

/// The vtable entry of a method: a trampoline that calls the user's method
/// on the value behind the user data pointer.
pub open spec fn trampoline_text(m: ClientTraitMethod, trait_name: Seq<char>, reg: Map<Seq<char>, TypeEntryView>) -> Seq<char> {
    let e = extern_return(m.ret, false, true);
    let is_mut = m.receiver == Receiver::Mut;
    "            "@ + m.name@ + ": Some({\n"@ + "                unsafe extern \"C\" fn __trampoline<__T: "@ + trait_name + ">(\n"@
        + "                    "@ + join_spec(
        seq!["__ud: *mut core::ffi::c_void"@] + params_items(ParamList::ExternParams, m.params@) + e.0,
        ", "@,
    ) + ",\n"@ + "                )"@ + e.1 + " {\n"@ + "                    let __val = unsafe { "@ + if is_mut {
        "&mut *(__ud as *mut __T)"@
    } else {
        "&*(__ud as *const __T)"@
    } + " };\n"@ + tramp_slice_lets(m.params@) + "                    let __result = __val."@ + m.name@ + "("@ + join_spec(
        tramp_args(m.params@),
        ", "@,
    ) + ");\n"@ + tramp_return_text(m.ret, reg) + "                }\n"@ + "                __trampoline::<Self>\n"@
        + "            }),\n"@
}

/// The arm of a trampoline's result that answers an error: it hands the
/// error to the caller and returns the packed result of the error type's
/// tag with code 1.
pub open spec fn error_arm_expected(tag: u32) -> Seq<char> {
    "                        Err(__e) => {\n"@
        + "                            unsafe { *err_out = Box::into_raw(Box::new(__e)) as *mut core::ffi::c_void };\n"@
        + "                            ffier::ffier_result("@ + decimal(tag as nat) + ", 1)\n"@ + "                        }\n"@
}

/// The arm of a trampoline's result that answers success: the success code
/// 0, after writing the ok value out when there is one.
pub open spec fn success_arm_expected(ok: Option<TypeText>) -> Seq<char> {
    match ok {
        None => "                        Ok(()) => 0, // FFIER_RESULT_SUCCESS\n"@,
        Some(t) => "                        Ok(__ok) => {\n"@ + "                            unsafe { result.write(<"@ + t.rust_type@
            + " as FfiType>::into_c(__ok)) };\n"@ + "                            0 // FFIER_RESULT_SUCCESS\n"@ + "                        }\n"@,
    }
}

/// The trampoline of a trait method returning `Result` through a result
/// code answers the library with the success code 0 on `Ok` (writing the
/// ok value out first, if any) and, on `Err`, with the packed result of the
/// error type's tag and code 1, which is never the success code; those are
/// the only two arms.
pub proof fn lemma_trampoline_result_codes(m: ClientTraitMethod, trait_name: Seq<char>, reg: Map<Seq<char>, TypeEntryView>) -> (parts: (
    Seq<char>,
    Seq<char>,
))
    requires
        m.ret matches MethodReturn::Result { handle_or_null: false, .. },
    ensures
        trampoline_text(m, trait_name, reg) == parts.0 + "                    match __result {\n"@ + success_arm_expected(m.ret->ok)
            + error_arm_expected(err_tag(reg, m.ret->err_type@)) + "                    }\n"@ + parts.1,
        crate::ffi_error::result_value(err_tag(reg, m.ret->err_type@), 1) != 0,
{
    let e = extern_return(m.ret, false, true);
    let is_mut = m.receiver == Receiver::Mut;
    let head = "            "@ + m.name@ + ": Some({\n"@ + "                unsafe extern \"C\" fn __trampoline<__T: "@ + trait_name + ">(\n"@
        + "                    "@ + join_spec(seq!["__ud: *mut core::ffi::c_void"@] + params_items(ParamList::ExternParams, m.params@) + e.0, ", "@)
        + ",\n"@ + "                )"@ + e.1 + " {\n"@ + "                    let __val = unsafe { "@ + if is_mut {
        "&mut *(__ud as *mut __T)"@
    } else {
        "&*(__ud as *const __T)"@
    } + " };\n"@ + tramp_slice_lets(m.params@) + "                    let __result = __val."@ + m.name@ + "("@ + join_spec(tramp_args(m.params@), ", "@)
        + ");\n"@;
    let tail = "                }\n"@ + "                __trampoline::<Self>\n"@ + "            }),\n"@;
    let open = "                    match __result {\n"@;
    let ok = success_arm_expected(m.ret->ok);
    let err = error_arm_expected(err_tag(reg, m.ret->err_type@));
    let close = "                    }\n"@;
    assert(tramp_return_text(m.ret, reg) =~= open + ok + err + close);
    assert(trampoline_text(m, trait_name, reg) =~= head + (open + ok + err + close) + tail);
    assert(head + (open + ok + err + close) + tail =~= head + open + ok + err + close + tail);
    crate::ffi_error::lemma_result_roundtrip(err_tag(reg, m.ret->err_type@), 1);
    (head, tail)
}

/// The vtable entry of one slot.
pub open spec fn ctor_slot_text(ms: Seq<ClientTraitMethod>, slot: nat, trait_name: Seq<char>, reg: Map<Seq<char>, TypeEntryView>) -> Seq<char> {
    match slot_owner(ms, slot as int) {
        Some(k) => trampoline_text(ms[k], trait_name, reg),
        None => "            __reserved_"@ + decimal(slot) + ": None,\n"@,
    }
}

/// The vtable entries of slots `0..n`.
pub open spec fn ctor_slots_text(ms: Seq<ClientTraitMethod>, n: nat, trait_name: Seq<char>, reg: Map<Seq<char>, TypeEntryView>) -> Seq<char>
    decreases n,
{
    if n == 0 {
        Seq::empty()
    } else {
        ctor_slots_text(ms, (n - 1) as nat, trait_name, reg) + ctor_slot_text(ms, (n - 1) as nat, trait_name, reg)
    }
}

/// The static vtable of a client type implementing a trait: a drop
/// trampoline, then one entry per slot `0..=max_slot`.
pub open spec fn vtable_ctor_text(
    vt: Seq<char>,
    trait_name: Seq<char>,
    ms: Seq<ClientTraitMethod>,
    max_slot: nat,
    reg: Map<Seq<char>, TypeEntryView>,
) -> Seq<char> {
    "        &"@ + vt + " {\n"@ + "            drop: Some({\n"@
        + "                unsafe extern \"C\" fn __drop_trampoline<__T>(__ud: *mut core::ffi::c_void) {\n"@
        + "                    unsafe { drop(Box::from_raw(__ud as *mut __T)) };\n"@ + "                }\n"@
        + "                __drop_trampoline::<Self>\n"@ + "            }),\n"@ + ctor_slots_text(ms, max_slot + 1, trait_name, reg)
        + "        }\n"@
}

fn tramp_slice_let_lines(ps: &[ClientParam]) -> (r: String)
    ensures
        r@ == tramp_slice_lets(ps@),
{
    let mut s = String::new();
    let mut i: usize = 0;
    assert(ps@.take(0) =~= Seq::<ClientParam>::empty());
    while i < ps.len()
        invariant
            i <= ps@.len(),
            s@ == tramp_slice_lets(ps@.take(i as int)),
        decreases ps@.len() - i,
    {
        let ghost s0 = s@;
        let p = &ps[i];
        match &p.param_type {
            ClientParamType::Slice => {
                let mut l = owned("                    let __slice_");
                push_str(&mut l, p.name.as_str());
                push_str(&mut l, ": Vec<&str> = unsafe { core::slice::from_raw_parts(");
                push_str(&mut l, p.name.as_str());
                push_str(&mut l, ", ");
                push_str(&mut l, p.name.as_str());
                push_str(&mut l, "_len) }.iter().map(|b| unsafe { b.as_str_unchecked() }).collect();\n");
                push_str(&mut s, l.as_str());
            },
            _ => {},
        }
        i = i + 1;
        assert(ps@.take(i as int).drop_last() =~= ps@.take(i - 1));
        assert(s@ =~= tramp_slice_lets(ps@.take(i as int)));
    }
    assert(ps@.take(ps@.len() as int) =~= ps@);
    s
}

fn tramp_arg_list(ps: &[ClientParam]) -> (r: String)
    ensures
        r@ == join_spec(tramp_args(ps@), ", "@),
{
    let mut args: Vec<String> = Vec::new();
    let mut i: usize = 0;
    while i < ps.len()
        invariant
            i <= ps@.len(),
            strings_view(args@) == tramp_args(ps@).take(i as int),
        decreases ps@.len() - i,
    {
        let ghost before = strings_view(args@);
        let p = &ps[i];
        let a = match &p.param_type {
            ClientParamType::Regular { rust_type, .. } => {
                let mut a = owned("unsafe { <");
                push_str(&mut a, rust_type.as_str());
                push_str(&mut a, " as FfiType>::from_c(");
                push_str(&mut a, p.name.as_str());
                push_str(&mut a, ") }");
                a
            },
            ClientParamType::ImplTrait { .. } => p.name.clone(),
            ClientParamType::Slice => {
                let mut a = owned("&__slice_");
                push_str(&mut a, p.name.as_str());
                a
            },
        };
        assert(tramp_args(ps@)[i as int] == a@);
        let ghost av = a@;
        args.push(a);
        assert(strings_view(args@) =~= before.push(av));
        i = i + 1;
        assert(strings_view(args@) =~= tramp_args(ps@).take(i as int));
    }
    assert(tramp_args(ps@).take(ps@.len() as int) =~= tramp_args(ps@));
    join_strings(args.as_slice(), ", ")
}

fn err_tag_of(reg: &TypeRegistry, err_type: &str) -> (r: u32)
    requires
        reg.wf(),
    ensures
        r == err_tag(reg@, err_type@),
{
    match reg.get(err_type) {
        Some(e) => match e.type_tag {
            Some(t) => t,
            None => 0,
        },
        None => 0,
    }
}

fn tramp_return(ret: &MethodReturn, reg: &TypeRegistry) -> (r: String)
    requires
        reg.wf(),
    ensures
        r@ == tramp_return_text(*ret, reg@),
{
    match ret {
        MethodReturn::Void => String::new(),
        MethodReturn::Value(t) => {
            let mut s = owned("                    <");
            push_str(&mut s, t.rust_type.as_str());
            push_str(&mut s, " as FfiType>::into_c(__result)\n");
            s
        },
        MethodReturn::Result { ok, err_type, handle_or_null } => {
            let mut arms = String::new();
            if *handle_or_null {
                match ok {
                    Some(t) => {
                        push_str(&mut arms, "                        Ok(__ok) => <");
                        push_str(&mut arms, t.rust_type.as_str());
                        push_str(&mut arms, " as FfiType>::into_c(__ok),\n");
                    },
                    None => push_str(&mut arms, "                        Ok(()) => core::ptr::null_mut(),\n"),
                }
                push_str(&mut arms, "                        Err(__e) => {\n");
                push_str(&mut arms, "                            unsafe { *err_out = Box::into_raw(Box::new(__e)) as *mut core::ffi::c_void };\n");
                push_str(&mut arms, "                            core::ptr::null_mut()\n");
                push_str(&mut arms, "                        }\n");
            } else {
                match ok {
                    Some(t) => {
                        push_str(&mut arms, "                        Ok(__ok) => {\n");
                        push_str(&mut arms, "                            unsafe { result.write(<");
                        push_str(&mut arms, t.rust_type.as_str());
                        push_str(&mut arms, " as FfiType>::into_c(__ok)) };\n");
                        push_str(&mut arms, "                            0 // FFIER_RESULT_SUCCESS\n");
                        push_str(&mut arms, "                        }\n");
                    },
                    None => push_str(&mut arms, "                        Ok(()) => 0, // FFIER_RESULT_SUCCESS\n"),
                }
                push_str(&mut arms, "                        Err(__e) => {\n");
                push_str(&mut arms, "                            unsafe { *err_out = Box::into_raw(Box::new(__e)) as *mut core::ffi::c_void };\n");
                push_str(&mut arms, "                            ffier::ffier_result(");
                push_decimal(&mut arms, err_tag_of(reg, err_type.as_str()) as u64);
                push_str(&mut arms, ", 1)\n");
                push_str(&mut arms, "                        }\n");
            }
            let mut s = owned("                    match __result {\n");
            push_str(&mut s, arms.as_str());
            push_str(&mut s, "                    }\n");
            assert(s@ =~= tramp_return_text(*ret, reg@));
            s
        },
    }
}

fn trampoline(m: &ClientTraitMethod, trait_name: &str, reg: &TypeRegistry) -> (r: String)
    requires
        reg.wf(),
    ensures
        r@ == trampoline_text(*m, trait_name@, reg@),
{
    let mut params: Vec<String> = Vec::new();
    params.push(owned("__ud: *mut core::ffi::c_void"));
    assert(strings_view(params@) =~= seq!["__ud: *mut core::ffi::c_void"@]);
    push_extern_params(m.params.as_slice(), &mut params);
    let ret = push_return_and_out_params(&m.ret, &mut params, false);
    let mut s = owned("            ");
    push_str(&mut s, m.name.as_str());
    push_str(&mut s, ": Some({\n");
    push_str(&mut s, "                unsafe extern \"C\" fn __trampoline<__T: ");
    push_str(&mut s, trait_name);
    push_str(&mut s, ">(\n");
    push_str(&mut s, "                    ");
    push_str(&mut s, join_strings(params.as_slice(), ", ").as_str());
    push_str(&mut s, ",\n");
    push_str(&mut s, "                )");
    push_str(&mut s, ret.as_str());
    push_str(&mut s, " {\n");
    push_str(&mut s, "                    let __val = unsafe { ");
    if m.receiver == Receiver::Mut {
        push_str(&mut s, "&mut *(__ud as *mut __T)");
    } else {
        push_str(&mut s, "&*(__ud as *const __T)");
    }
    push_str(&mut s, " };\n");
    push_str(&mut s, tramp_slice_let_lines(m.params.as_slice()).as_str());
    push_str(&mut s, "                    let __result = __val.");
    push_str(&mut s, m.name.as_str());
    push_str(&mut s, "(");
    push_str(&mut s, tramp_arg_list(m.params.as_slice()).as_str());
    push_str(&mut s, ");\n");
    push_str(&mut s, tramp_return(&m.ret, reg).as_str());
    push_str(&mut s, "                }\n");
    push_str(&mut s, "                __trampoline::<Self>\n");
    push_str(&mut s, "            }),\n");
    s
}

fn ctor_slot(ms: &Vec<ClientTraitMethod>, slot: usize, trait_name: &str, reg: &TypeRegistry) -> (r: String)
    requires
        reg.wf(),
    ensures
        r@ == ctor_slot_text(ms@, slot as nat, trait_name@, reg@),
{
    match find_slot_owner(ms, slot) {
        Some(k) => trampoline(&ms[k], trait_name, reg),
        None => {
            let mut s = owned("            __reserved_");
            push_decimal(&mut s, slot as u64);
            push_str(&mut s, ": None,\n");
            s
        },
    }
}

/// Writes the static vtable that a client type implementing a trait hands
/// to the library.
pub fn emit_vtable_constructor(
    out: &mut String,
    vt: &str,
    trait_name: &str,
    ms: &Vec<ClientTraitMethod>,
    max_slot: usize,
    reg: &TypeRegistry,
)
    requires
        max_slot < usize::MAX,
        reg.wf(),
    ensures
        final(out)@ == old(out)@ + vtable_ctor_text(vt@, trait_name@, ms@, max_slot as nat, reg@),
{
    let mut t = owned("        &");
    push_str(&mut t, vt);
    push_str(&mut t, " {\n");
    push_str(&mut t, "            drop: Some({\n");
    push_str(&mut t, "                unsafe extern \"C\" fn __drop_trampoline<__T>(__ud: *mut core::ffi::c_void) {\n");
    push_str(&mut t, "                    unsafe { drop(Box::from_raw(__ud as *mut __T)) };\n");
    push_str(&mut t, "                }\n");
    push_str(&mut t, "                __drop_trampoline::<Self>\n");
    push_str(&mut t, "            }),\n");
    let ghost t0 = t@;
    let mut slot: usize = 0;
    while slot <= max_slot
        invariant
            slot <= max_slot + 1,
            max_slot < usize::MAX,
            reg.wf(),
            t@ == t0 + ctor_slots_text(ms@, slot as nat, trait_name@, reg@),
        decreases max_slot + 1 - slot,
    {
        let f = ctor_slot(ms, slot, trait_name, reg);
        push_str(&mut t, f.as_str());
        slot = slot + 1;
        assert(t@ =~= t0 + ctor_slots_text(ms@, slot as nat, trait_name@, reg@));
    }
    push_str(&mut t, "        }\n");
    assert(t@ =~= vtable_ctor_text(vt@, trait_name@, ms@, max_slot as nat, reg@));
    push_str(out, t.as_str());
}

// ---------------------------------------------------------------------------
// Implementable traits
// ---------------------------------------------------------------------------

/// A trait that client code implements, as the client sees it.
pub struct ClientTrait {
    pub name: String,
    pub type_tag: u32,
    pub vtable_struct_name: String,
    pub wrapper_name: String,
    pub destroy_ffi_name: String,
    /// The highest vtable slot in use or retired.
    pub max_vtable_slot: usize,
    pub methods: Vec<ClientTraitMethod>,
}

/// The first argument of a default method's self-dispatch call.
pub open spec fn temp_arg() -> Seq<char> {
    "&mut __temp as *mut ffier::FfierHandle<ffier::VtableHandle> as *mut core::ffi::c_void"@
}

/// The body of a method with a default: it wraps `self` in a temporary
/// handle with the trait's vtable and calls the library's dispatch function.
pub open spec fn default_dispatch_text(m: ClientTraitMethod, s: TraitSlot, type_tag: u32, vt: Seq<char>) -> Seq<char> {
    "        let __vtable: &'static "@ + vt + " = Self::__ffier_vtable();\n"@ + "        let __metadata: u32 = 2 | ("@ + decimal(
        s.index as nat,
    ) + "u32 << 2);\n"@ + "        let mut __temp = ffier::FfierHandle {\n"@ + "            type_tag: "@ + decimal(type_tag as nat)
        + "u32,\n"@ + "            metadata: __metadata,\n"@ + "            value: ffier::VtableHandle {\n"@
        + "                vtable_ptr: __vtable as *const "@ + vt + " as *const core::ffi::c_void,\n"@
        + "                user_data: self as *const Self as *const core::ffi::c_void,\n"@
        + "                vtable_size: core::mem::size_of::<"@ + vt + ">() as u16,\n"@ + "            },\n"@ + "        };\n"@
        + slice_bindings_text(m.params@, "        "@) + ffi_call_return_text(
        s.ffi_name@,
        join_spec(seq![temp_arg()] + params_items(ParamList::FfiArgs, m.params@), ", "@),
        m.ret,
        "        "@,
    )
}

/// The method items of a trait definition, in order.
pub open spec fn trait_method_lines(ms: Seq<ClientTraitMethod>, type_tag: u32, vt: Seq<char>) -> Seq<char>
    decreases ms.len(),
{
    if ms.len() == 0 {
        Seq::empty()
    } else {
        trait_method_lines(ms.drop_last(), type_tag, vt) + match ms.last().slot {
            Some(s) => if s.has_default {
                "    "@ + tm_sig(ms.last()) + " where Self: Sized {\n"@ + default_dispatch_text(ms.last(), s, type_tag, vt)
                    + "    }\n"@
            } else {
                "    "@ + tm_sig(ms.last()) + ";\n"@
            },
            None => Seq::empty(),
        }
    }
}

/// The trait definition, with the hidden vtable and handle constructors.
pub open spec fn trait_def_text(tr: ClientTrait, reg: Map<Seq<char>, TypeEntryView>) -> Seq<char> {
    let vt = tr.vtable_struct_name@;
    "pub trait "@ + tr.name@ + " {\n"@ + trait_method_lines(tr.methods@, tr.type_tag, vt) + "    #[doc(hidden)]\n"@
        + "    fn __ffier_vtable() -> &'static "@ + vt + " where Self: Sized {\n"@ + vtable_ctor_text(
        vt,
        tr.name@,
        tr.methods@,
        tr.max_vtable_slot as nat,
        reg,
    ) + "    }\n"@ + "    #[doc(hidden)]\n"@ + "    fn __into_raw_handle(self) -> *mut core::ffi::c_void where Self: Sized {\n"@
        + "        let __vtable: &'static "@ + vt + " = Self::__ffier_vtable();\n"@
        + "        let __user_data = Box::into_raw(Box::new(self));\n"@ + "        let vtable_size: u16 = core::mem::size_of::<"@
        + vt + ">().try_into().expect(\"vtable_size exceeds u16::MAX\");\n"@
        + "        ffier::ffier_handle_new_with_metadata("@ + decimal(tr.type_tag as nat) + "u32, 0, ffier::VtableHandle {\n"@
        + "            vtable_ptr: __vtable as *const "@ + vt + " as *const core::ffi::c_void,\n"@
        + "            user_data: __user_data as *const core::ffi::c_void,\n"@ + "            vtable_size,\n"@ + "        })\n"@
        + "    }\n"@ + "}\n"@ + "\n"@
}

/// Some method of the trait has a default body.
pub open spec fn has_defaults(ms: Seq<ClientTraitMethod>) -> bool {
    exists|i: int| 0 <= i < ms.len() && (#[trigger] ms[i].slot matches Some(s) && s.has_default)
}

/// The wrapper struct for trait objects that the library hands back.
pub open spec fn trait_wrapper_text(w: Seq<char>) -> Seq<char> {
    "pub struct "@ + w + "(*mut core::ffi::c_void);\n"@ + "\n"@ + "impl "@ + w + " {\n"@ + "    #[doc(hidden)]\n"@
        + "    pub fn __into_raw(self) -> *mut core::ffi::c_void { let this = std::mem::ManuallyDrop::new(self); this.0 }\n"@
        + "}\n"@ + "\n"@ + "impl Drop for "@ + w + " {\n"@ + "    fn drop(&mut self) {}\n"@ + "}\n"@ + "\n"@
}

/// The client source of a trait that client code implements: the trait,
/// its vtable struct, the dispatch functions of its defaulted methods, and
/// its wrapper struct.
pub open spec fn implementable_trait_text(tr: ClientTrait, reg: Map<Seq<char>, TypeEntryView>) -> Seq<char> {
    trait_def_text(tr, reg) + vtable_struct_text(tr.vtable_struct_name@, tr.methods@, tr.max_vtable_slot as nat) + if has_defaults(
        tr.methods@,
    ) {
        "unsafe extern \"C\" {\n"@ + dispatch_extern_lines(tr.methods@, true) + "}\n"@ + "\n"@
    } else {
        Seq::empty()
    } + trait_wrapper_text(tr.wrapper_name@)
}

fn temp_call_args(params: &[ClientParam]) -> (r: String)
    ensures
        r@ == join_spec(seq![temp_arg()] + params_items(ParamList::FfiArgs, params@), ", "@),
{
    let mut args: Vec<String> = Vec::new();
    args.push(owned("&mut __temp as *mut ffier::FfierHandle<ffier::VtableHandle> as *mut core::ffi::c_void"));
    let ghost a0 = strings_view(args@);
    assert(a0 =~= seq![temp_arg()]);
    let mut rest = build_ffi_param_args(params);
    let ghost r0 = strings_view(rest@);
    args.append(&mut rest);
    assert(strings_view(args@) =~= a0 + r0);
    join_strings(args.as_slice(), ", ")
}

fn emit_default_dispatch_body(out: &mut String, m: &ClientTraitMethod, s: &TraitSlot, type_tag: u32, vt: &str)
    ensures
        final(out)@ == old(out)@ + default_dispatch_text(*m, *s, type_tag, vt@),
{
    let mut t = owned("        let __vtable: &'static ");
    push_str(&mut t, vt);
    push_str(&mut t, " = Self::__ffier_vtable();\n");
    push_str(&mut t, "        let __metadata: u32 = 2 | (");
    push_decimal(&mut t, s.index as u64);
    push_str(&mut t, "u32 << 2);\n");
    push_str(&mut t, "        let mut __temp = ffier::FfierHandle {\n");
    push_str(&mut t, "            type_tag: ");
    push_decimal(&mut t, type_tag as u64);
    push_str(&mut t, "u32,\n");
    push_str(&mut t, "            metadata: __metadata,\n");
    push_str(&mut t, "            value: ffier::VtableHandle {\n");
    push_str(&mut t, "                vtable_ptr: __vtable as *const ");
    push_str(&mut t, vt);
    push_str(&mut t, " as *const core::ffi::c_void,\n");
    push_str(&mut t, "                user_data: self as *const Self as *const core::ffi::c_void,\n");
    push_str(&mut t, "                vtable_size: core::mem::size_of::<");
    push_str(&mut t, vt);
    push_str(&mut t, ">() as u16,\n");
    push_str(&mut t, "            },\n");
    push_str(&mut t, "        };\n");
    emit_slice_pre_bindings(&mut t, m.params.as_slice(), "        ");
    let args = temp_call_args(m.params.as_slice());
    emit_ffi_call_return(&mut t, s.ffi_name.as_str(), args.as_str(), &m.ret, "        ");
    push_str(out, t.as_str());
}

fn emit_trait_method_lines(out: &mut String, ms: &Vec<ClientTraitMethod>, type_tag: u32, vt: &str)
    ensures
        final(out)@ == old(out)@ + trait_method_lines(ms@, type_tag, vt@),
{
    let ghost o0 = out@;
    let mut i: usize = 0;
    assert(ms@.take(0) =~= Seq::<ClientTraitMethod>::empty());
    while i < ms.len()
        invariant
            i <= ms@.len(),
            out@ == o0 + trait_method_lines(ms@.take(i as int), type_tag, vt@),
        decreases ms@.len() - i,
    {
        let m = &ms[i];
        let ghost before = out@;
        match &m.slot {
            Some(s) => {
                let sig = tm_sig_string(m);
                if s.has_default {
                    let mut t = owned("    ");
                    push_str(&mut t, sig.as_str());
                    push_str(&mut t, " where Self: Sized {\n");
                    emit_default_dispatch_body(&mut t, m, s, type_tag, vt);
                    push_str(&mut t, "    }\n");
                    push_str(out, t.as_str());
                } else {
                    let mut t = owned("    ");
                    push_str(&mut t, sig.as_str());
                    push_str(&mut t, ";\n");
                    push_str(out, t.as_str());
                }
            },
            None => {},
        }
        i = i + 1;
        assert(ms@.take(i as int).drop_last() =~= ms@.take(i - 1));
        assert(out@ =~= o0 + trait_method_lines(ms@.take(i as int), type_tag, vt@));
    }
    assert(ms@.take(ms@.len() as int) =~= ms@);
}

fn any_default(ms: &Vec<ClientTraitMethod>) -> (r: bool)
    ensures
        r == has_defaults(ms@),
{
    let mut i: usize = 0;
    while i < ms.len()
        invariant
            i <= ms@.len(),
            forall|j: int| 0 <= j < i ==> !(#[trigger] ms@[j].slot matches Some(s) && s.has_default),
        decreases ms@.len() - i,
    {
        match &ms[i].slot {
            Some(s) => if s.has_default {
                return true;
            },
            None => {},
        }
        i = i + 1;
    }
    false
}

fn emit_trait_def(out: &mut String, tr: &ClientTrait, reg: &TypeRegistry)
    requires
        tr.max_vtable_slot < usize::MAX,
        reg.wf(),
    ensures
        final(out)@ == old(out)@ + trait_def_text(*tr, reg@),
{
    let vt = tr.vtable_struct_name.as_str();
    let mut t = owned("pub trait ");
    push_str(&mut t, tr.name.as_str());
    push_str(&mut t, " {\n");
    emit_trait_method_lines(&mut t, &tr.methods, tr.type_tag, vt);
    push_str(&mut t, "    #[doc(hidden)]\n");
    push_str(&mut t, "    fn __ffier_vtable() -> &'static ");
    push_str(&mut t, vt);
    push_str(&mut t, " where Self: Sized {\n");
    emit_vtable_constructor(&mut t, vt, tr.name.as_str(), &tr.methods, tr.max_vtable_slot, reg);
    push_str(&mut t, "    }\n");
    push_str(&mut t, "    #[doc(hidden)]\n");
    push_str(&mut t, "    fn __into_raw_handle(self) -> *mut core::ffi::c_void where Self: Sized {\n");
    push_str(&mut t, "        let __vtable: &'static ");
    push_str(&mut t, vt);
    push_str(&mut t, " = Self::__ffier_vtable();\n");
    push_str(&mut t, "        let __user_data = Box::into_raw(Box::new(self));\n");
    push_str(&mut t, "        let vtable_size: u16 = core::mem::size_of::<");
    push_str(&mut t, vt);
    push_str(&mut t, ">().try_into().expect(\"vtable_size exceeds u16::MAX\");\n");
    push_str(&mut t, "        ffier::ffier_handle_new_with_metadata(");
    push_decimal(&mut t, tr.type_tag as u64);
    push_str(&mut t, "u32, 0, ffier::VtableHandle {\n");
    push_str(&mut t, "            vtable_ptr: __vtable as *const ");
    push_str(&mut t, vt);
    push_str(&mut t, " as *const core::ffi::c_void,\n");
    push_str(&mut t, "            user_data: __user_data as *const core::ffi::c_void,\n");
    push_str(&mut t, "            vtable_size,\n");
    push_str(&mut t, "        })\n");
    push_str(&mut t, "    }\n");
    push_str(&mut t, "}\n");
    push_str(&mut t, "\n");
    push_str(out, t.as_str());
}

fn trait_wrapper(w: &str) -> (r: String)
    ensures
        r@ == trait_wrapper_text(w@),
{
    let mut t = owned("pub struct ");
    push_str(&mut t, w);
    push_str(&mut t, "(*mut core::ffi::c_void);\n");
    push_str(&mut t, "\n");
    push_str(&mut t, "impl ");
    push_str(&mut t, w);
    push_str(&mut t, " {\n");
    push_str(&mut t, "    #[doc(hidden)]\n");
    push_str(&mut t, "    pub fn __into_raw(self) -> *mut core::ffi::c_void { let this = std::mem::ManuallyDrop::new(self); this.0 }\n");
    push_str(&mut t, "}\n");
    push_str(&mut t, "\n");
    push_str(&mut t, "impl Drop for ");
    push_str(&mut t, w);
    push_str(&mut t, " {\n");
    push_str(&mut t, "    fn drop(&mut self) {}\n");
    push_str(&mut t, "}\n");
    push_str(&mut t, "\n");
    t
}

/// Writes the client source of a trait that client code implements.
pub fn emit_implementable_trait(out: &mut String, tr: &ClientTrait, reg: &TypeRegistry)
    requires
        tr.max_vtable_slot < usize::MAX,
        reg.wf(),
    ensures
        final(out)@ == old(out)@ + implementable_trait_text(*tr, reg@),
{
    let mut t = String::new();
    emit_trait_def(&mut t, tr, reg);
    assert(t@ =~= trait_def_text(*tr, reg@));
    emit_vtable_struct(&mut t, tr.vtable_struct_name.as_str(), &tr.methods, tr.max_vtable_slot);
    let ghost t1 = t@;
    let mut d = String::new();
    if any_default(&tr.methods) {
        push_str(&mut d, "unsafe extern \"C\" {\n");
        emit_dispatch_extern_lines(&mut d, &tr.methods, true);
        push_str(&mut d, "}\n");
        push_str(&mut d, "\n");
    }
    assert(d@ =~= if has_defaults(tr.methods@) {
        "unsafe extern \"C\" {\n"@ + dispatch_extern_lines(tr.methods@, true) + "}\n"@ + "\n"@
    } else {
        Seq::<char>::empty()
    });
    push_str(&mut t, d.as_str());
    push_str(&mut t, trait_wrapper(tr.wrapper_name.as_str()).as_str());
    push_str(out, t.as_str());
}

/// Writes only the extern declarations of the error trait's dispatch
/// functions and its destroy function (the trait itself would collide with
/// the error enum).
pub open spec fn error_trait_externs_text(tr: ClientTrait) -> Seq<char> {
    "unsafe extern \"C\" {\n"@ + dispatch_extern_lines(tr.methods@, false) + "    pub fn "@ + tr.destroy_ffi_name@
        + "(handle: *mut core::ffi::c_void);\n"@ + "}\n"@ + "\n"@
}

/// Writes the extern declarations of the error trait.
pub fn emit_error_trait_externs(out: &mut String, tr: &ClientTrait)
    ensures
        final(out)@ == old(out)@ + error_trait_externs_text(*tr),
{
    let mut t = owned("unsafe extern \"C\" {\n");
    emit_dispatch_extern_lines(&mut t, &tr.methods, false);
    push_str(&mut t, "    pub fn ");
    push_str(&mut t, tr.destroy_ffi_name.as_str());
    push_str(&mut t, "(handle: *mut core::ffi::c_void);\n");
    push_str(&mut t, "}\n");
    push_str(&mut t, "\n");
    push_str(out, t.as_str());
}

// ---------------------------------------------------------------------------
// Trait impls
// ---------------------------------------------------------------------------

/// An impl of a trait for an exported type, as the client sees it.
pub struct ClientTraitImpl {
    pub trait_name: String,
    pub struct_name: String,
    /// The impl's lifetime parameters.
    pub lifetimes: Vec<String>,
    /// The lifetime arguments of the trait.
    pub trait_lifetime_args: Vec<String>,
    /// The lifetime arguments of the type.
    pub struct_lifetime_args: Vec<String>,
    pub methods: Vec<ClientTraitMethod>,
}

/// The signature lines of all the methods of a trait met only in impls.
pub open spec fn sig_lines(ms: Seq<ClientTraitMethod>) -> Seq<char>
    decreases ms.len(),
{
    if ms.len() == 0 {
        Seq::empty()
    } else {
        sig_lines(ms.drop_last()) + "    "@ + tm_sig(ms.last()) + ";\n"@
    }
}

/// The definition of a trait met only in impls: its methods, generic over
/// the trait's lifetime arguments other than `'static`.
pub open spec fn simple_trait_def_text(ti: ClientTraitImpl) -> Seq<char> {
    "pub trait "@ + ti.trait_name@ + method_lifetimes_text(non_static(strings_view(ti.trait_lifetime_args@))) + " {\n"@
        + sig_lines(ti.methods@) + "    #[doc(hidden)]\n"@
        + "    fn __into_raw_handle(self) -> *mut core::ffi::c_void where Self: Sized;\n"@ + "}\n"@ + "\n"@
}

/// A method of an impl that forwards to the library's function.
pub open spec fn forwarder_text(m: ClientTraitMethod, ffi: Seq<char>) -> Seq<char> {
    "    "@ + tm_sig(m) + " {\n"@ + slice_bindings_text(m.params@, "        "@) + ffi_call_return_text(
        ffi,
        join_spec(seq!["self.0"@] + params_items(ParamList::FfiArgs, m.params@), ", "@),
        m.ret,
        "        "@,
    ) + "    }\n"@
}

/// The forwarders of the impl's own trait-context methods.
pub open spec fn forwarders_text(ms: Seq<ClientTraitMethod>) -> Seq<char>
    decreases ms.len(),
{
    if ms.len() == 0 {
        Seq::empty()
    } else {
        forwarders_text(ms.drop_last()) + match ms.last().slot {
            Some(s) => forwarder_text(ms.last(), s.ffi_name@),
            None => Seq::empty(),
        }
    }
}

/// The names of methods.
pub open spec fn method_names(ms: Seq<ClientTraitMethod>) -> Seq<Seq<char>> {
    ms.map_values(|m: ClientTraitMethod| m.name@)
}

/// The forwarders of the trait's defaulted methods that the impl does not
/// define itself.
pub open spec fn default_forwarders_text(ms: Seq<ClientTraitMethod>, own: Seq<Seq<char>>) -> Seq<char>
    decreases ms.len(),
{
    if ms.len() == 0 {
        Seq::empty()
    } else {
        default_forwarders_text(ms.drop_last(), own) + match ms.last().slot {
            Some(s) => if s.has_default && !own.contains(ms.last().name@) {
                forwarder_text(ms.last(), s.ffi_name@)
            } else {
                Seq::empty()
            },
            None => Seq::empty(),
        }
    }
}

/// The trait whose defaults apply to trait `name`: the last one of that
/// name with a defaulted method.
pub open spec fn defaults_owner(traits: Seq<ClientTrait>, name: Seq<char>) -> Option<int>
    decreases traits.len(),
{
    if traits.len() == 0 {
        None
    } else if traits.last().name@ == name && has_defaults(traits.last().methods@) {
        Some(traits.len() - 1)
    } else {
        defaults_owner(traits.drop_last(), name)
    }
}

/// The client source of a trait impl: the trait's definition when it is
/// not defined yet, the dispatch externs, then the impl with a forwarder
/// per method (the impl's own, then the trait's defaults it lacks).
pub open spec fn trait_impl_text(ti: ClientTraitImpl, defined: Seq<Seq<char>>, traits: Seq<ClientTrait>) -> Seq<char> {
    (if defined.contains(ti.trait_name@) {
        Seq::<char>::empty()
    } else {
        simple_trait_def_text(ti)
    }) + "unsafe extern \"C\" {\n"@ + dispatch_extern_lines(ti.methods@, false) + "}\n"@ + "\n"@ + "impl"@ + method_lifetimes_text(
        strings_view(ti.lifetimes@),
    ) + " "@ + ti.trait_name@ + method_lifetimes_text(strings_view(ti.trait_lifetime_args@)) + " for "@ + ti.struct_name@
        + method_lifetimes_text(strings_view(ti.struct_lifetime_args@)) + " {\n"@ + forwarders_text(ti.methods@) + match defaults_owner(
        traits,
        ti.trait_name@,
    ) {
        Some(k) => default_forwarders_text(traits[k].methods@, method_names(ti.methods@)),
        None => Seq::empty(),
    } + "    fn __into_raw_handle(self) -> *mut core::ffi::c_void {\n"@ + "        let this = std::mem::ManuallyDrop::new(self);\n"@
        + "        this.0\n"@ + "    }\n"@ + "}\n"@ + "\n"@
}

fn emit_sig_lines(out: &mut String, ms: &Vec<ClientTraitMethod>)
    ensures
        final(out)@ == old(out)@ + sig_lines(ms@),
{
    let ghost o0 = out@;
    let mut i: usize = 0;
    assert(ms@.take(0) =~= Seq::<ClientTraitMethod>::empty());
    while i < ms.len()
        invariant
            i <= ms@.len(),
            out@ == o0 + sig_lines(ms@.take(i as int)),
        decreases ms@.len() - i,
    {
        let sig = tm_sig_string(&ms[i]);
        push_str(out, "    ");
        push_str(out, sig.as_str());
        push_str(out, ";\n");
        i = i + 1;
        assert(ms@.take(i as int).drop_last() =~= ms@.take(i - 1));
        assert(out@ =~= o0 + sig_lines(ms@.take(i as int)));
    }
    assert(ms@.take(ms@.len() as int) =~= ms@);
}

/// Writes the definition of a trait met only in impls.
pub fn emit_simple_trait_def(out: &mut String, ti: &ClientTraitImpl)
    ensures
        final(out)@ == old(out)@ + simple_trait_def_text(*ti),
{
    let mut t = owned("pub trait ");
    push_str(&mut t, ti.trait_name.as_str());
    push_str(&mut t, method_lifetimes(&non_static_of(&ti.trait_lifetime_args)).as_str());
    push_str(&mut t, " {\n");
    emit_sig_lines(&mut t, &ti.methods);
    push_str(&mut t, "    #[doc(hidden)]\n");
    push_str(&mut t, "    fn __into_raw_handle(self) -> *mut core::ffi::c_void where Self: Sized;\n");
    push_str(&mut t, "}\n");
    push_str(&mut t, "\n");
    push_str(out, t.as_str());
}

fn self_call_args(params: &[ClientParam]) -> (r: String)
    ensures
        r@ == join_spec(seq!["self.0"@] + params_items(ParamList::FfiArgs, params@), ", "@),
{
    let mut args: Vec<String> = Vec::new();
    args.push(owned("self.0"));
    let ghost a0 = strings_view(args@);
    assert(a0 =~= seq!["self.0"@]);
    let mut rest = build_ffi_param_args(params);
    let ghost r0 = strings_view(rest@);
    args.append(&mut rest);
    assert(strings_view(args@) =~= a0 + r0);
    join_strings(args.as_slice(), ", ")
}

fn emit_forwarder(out: &mut String, m: &ClientTraitMethod, ffi: &str)
    ensures
        final(out)@ == old(out)@ + forwarder_text(*m, ffi@),
{
    let mut t = owned("    ");
    push_str(&mut t, tm_sig_string(m).as_str());
    push_str(&mut t, " {\n");
    emit_slice_pre_bindings(&mut t, m.params.as_slice(), "        ");
    let args = self_call_args(m.params.as_slice());
    emit_ffi_call_return(&mut t, ffi, args.as_str(), &m.ret, "        ");
    push_str(&mut t, "    }\n");
    push_str(out, t.as_str());
}

fn emit_forwarders(out: &mut String, ms: &Vec<ClientTraitMethod>)
    ensures
        final(out)@ == old(out)@ + forwarders_text(ms@),
{
    let ghost o0 = out@;
    let mut i: usize = 0;
    assert(ms@.take(0) =~= Seq::<ClientTraitMethod>::empty());
    while i < ms.len()
        invariant
            i <= ms@.len(),
            out@ == o0 + forwarders_text(ms@.take(i as int)),
        decreases ms@.len() - i,
    {
        match &ms[i].slot {
            Some(s) => emit_forwarder(out, &ms[i], s.ffi_name.as_str()),
            None => {},
        }
        i = i + 1;
        assert(ms@.take(i as int).drop_last() =~= ms@.take(i - 1));
        assert(out@ =~= o0 + forwarders_text(ms@.take(i as int)));
    }
    assert(ms@.take(ms@.len() as int) =~= ms@);
}

fn names_contain(ms: &Vec<ClientTraitMethod>, name: &str) -> (r: bool)
    ensures
        r == method_names(ms@).contains(name@),
{
    let mut i: usize = 0;
    while i < ms.len()
        invariant
            i <= ms@.len(),
            forall|j: int| 0 <= j < i ==> #[trigger] method_names(ms@)[j] != name@,
        decreases ms@.len() - i,
    {
        if str_eq(ms[i].name.as_str(), name) {
            assert(method_names(ms@)[i as int] == name@);
            return true;
        }
        i = i + 1;
    }
    false
}

fn emit_default_forwarders(out: &mut String, ms: &Vec<ClientTraitMethod>, own: &Vec<ClientTraitMethod>)
    ensures
        final(out)@ == old(out)@ + default_forwarders_text(ms@, method_names(own@)),
{
    let ghost o0 = out@;
    let ghost names = method_names(own@);
    let mut i: usize = 0;
    assert(ms@.take(0) =~= Seq::<ClientTraitMethod>::empty());
    while i < ms.len()
        invariant
            i <= ms@.len(),
            names == method_names(own@),
            out@ == o0 + default_forwarders_text(ms@.take(i as int), names),
        decreases ms@.len() - i,
    {
        match &ms[i].slot {
            Some(s) => if s.has_default && !names_contain(own, ms[i].name.as_str()) {
                emit_forwarder(out, &ms[i], s.ffi_name.as_str());
            },
            None => {},
        }
        i = i + 1;
        assert(ms@.take(i as int).drop_last() =~= ms@.take(i - 1));
        assert(out@ =~= o0 + default_forwarders_text(ms@.take(i as int), names));
    }
    assert(ms@.take(ms@.len() as int) =~= ms@);
}

fn find_defaults_owner(traits: &[ClientTrait], name: &str) -> (r: Option<usize>)
    ensures
        match r {
            Some(k) => k < traits@.len() && defaults_owner(traits@, name@) == Some(k as int),
            None => defaults_owner(traits@, name@) is None,
        },
{
    let mut found: Option<usize> = None;
    let mut i: usize = 0;
    assert(traits@.take(0) =~= Seq::<ClientTrait>::empty());
    while i < traits.len()
        invariant
            i <= traits@.len(),
            match found {
                Some(k) => k < i && defaults_owner(traits@.take(i as int), name@) == Some(k as int),
                None => defaults_owner(traits@.take(i as int), name@) is None,
            },
        decreases traits@.len() - i,
    {
        if str_eq(traits[i].name.as_str(), name) && any_default(&traits[i].methods) {
            found = Some(i);
        }
        i = i + 1;
        assert(traits@.take(i as int).drop_last() =~= traits@.take(i - 1));
        assert(traits@.take(i as int).last() == traits@[i - 1]);
    }
    assert(traits@.take(traits@.len() as int) =~= traits@);
    found
}

/// Whether a name is among the strings.
pub fn contains_string(v: &Vec<String>, name: &str) -> (r: bool)
    ensures
        r == strings_view(v@).contains(name@),
{
    let mut i: usize = 0;
    while i < v.len()
        invariant
            i <= v@.len(),
            forall|j: int| 0 <= j < i ==> #[trigger] strings_view(v@)[j] != name@,
        decreases v@.len() - i,
    {
        if str_eq(v[i].as_str(), name) {
            assert(strings_view(v@)[i as int] == name@);
            return true;
        }
        i = i + 1;
    }
    false
}

/// Writes the client source of a trait impl; `defined` holds the traits
/// already defined and gains this one, `traits` are the implementable
/// traits, whose defaulted methods the impl forwards when it lacks them.
pub fn emit_trait_impl(out: &mut String, ti: &ClientTraitImpl, defined: &mut Vec<String>, traits: &[ClientTrait])
    ensures
        final(out)@ == old(out)@ + trait_impl_text(*ti, strings_view(old(defined)@), traits@),
        strings_view(final(defined)@) == if strings_view(old(defined)@).contains(ti.trait_name@) {
            strings_view(old(defined)@)
        } else {
            strings_view(old(defined)@).push(ti.trait_name@)
        },
{
    let ghost d0 = strings_view(defined@);
    let mut t = String::new();
    if !contains_string(defined, ti.trait_name.as_str()) {
        emit_simple_trait_def(&mut t, ti);
        defined.push(ti.trait_name.clone());
        assert(strings_view(defined@) =~= d0.push(ti.trait_name@));
    }
    assert(t@ =~= if d0.contains(ti.trait_name@) {
        Seq::<char>::empty()
    } else {
        simple_trait_def_text(*ti)
    });
    push_str(&mut t, "unsafe extern \"C\" {\n");
    emit_dispatch_extern_lines(&mut t, &ti.methods, false);
    push_str(&mut t, "}\n");
    push_str(&mut t, "\n");
    push_str(&mut t, "impl");
    push_str(&mut t, method_lifetimes(&ti.lifetimes).as_str());
    push_str(&mut t, " ");
    push_str(&mut t, ti.trait_name.as_str());
    push_str(&mut t, method_lifetimes(&ti.trait_lifetime_args).as_str());
    push_str(&mut t, " for ");
    push_str(&mut t, ti.struct_name.as_str());
    push_str(&mut t, method_lifetimes(&ti.struct_lifetime_args).as_str());
    push_str(&mut t, " {\n");
    emit_forwarders(&mut t, &ti.methods);
    let mut d = String::new();
    match find_defaults_owner(traits, ti.trait_name.as_str()) {
        Some(k) => emit_default_forwarders(&mut d, &traits[k].methods, &ti.methods),
        None => {},
    }
    assert(d@ =~= match defaults_owner(traits@, ti.trait_name@) {
        Some(k) => default_forwarders_text(traits@[k].methods@, method_names(ti.methods@)),
        None => Seq::<char>::empty(),
    });
    push_str(&mut t, d.as_str());
    push_str(&mut t, "    fn __into_raw_handle(self) -> *mut core::ffi::c_void {\n");
    push_str(&mut t, "        let this = std::mem::ManuallyDrop::new(self);\n");
    push_str(&mut t, "        this.0\n");
    push_str(&mut t, "    }\n");
    push_str(&mut t, "}\n");
    push_str(&mut t, "\n");
    push_str(out, t.as_str());
}

} // verus!
