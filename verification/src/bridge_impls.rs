//! The `extern "C"` bridge of trait impls, of traits implementable from C
//! and of error types: the methods of a trait impl called on a handle, the
//! functions that call an implementable trait's methods on whichever type
//! a handle holds, the constructor that wraps a C vtable in a handle, and
//! the functions that read and free an error's message.

use vstd::prelude::*;
use crate::bridge_gen::c_repr;
use crate::dispatch::TraitVariant;
use crate::vtable_impl::default_helper_name;
use crate::naming::{camel_to_snake, camel_to_snake_spec};
use crate::text::{chars_of, decimal, join_spec, join_strings, owned, push_decimal, push_str, slice_range, str_eq, string_of, strings_view};

verus! {

// ---------------------------------------------------------------------------
// Trait impls
// ---------------------------------------------------------------------------

/// A parameter passed as the C representation of its bridge type.
pub struct TypedParam {
    pub name: String,
    pub bridge_type: String,
}

/// A method of a trait impl: its name, parameters, and the bridge type it
/// returns (none for `()`).
pub struct TraitImplMethod {
    pub name: String,
    pub params: Vec<TypedParam>,
    pub ret: Option<String>,
}

/// A trait impl of an exported type.
pub struct TraitImplMeta {
    pub struct_name: String,
    /// The type's path, as text.
    pub struct_path: String,
    /// The trait's path, as text.
    pub trait_path: String,
    /// The library's C prefix.
    pub prefix: String,
    pub methods: Vec<TraitImplMethod>,
}

/// `name: <T as ffier::FfiType>::CRepr`.
pub open spec fn typed_sig_item(p: TypedParam) -> Seq<char> {
    p.name@ + ": "@ + c_repr(p.bridge_type@)
}

/// `<T as ffier::FfiType>::from_c(name)`.
pub open spec fn typed_arg(p: TypedParam) -> Seq<char> {
    "<"@ + p.bridge_type@ + " as ffier::FfiType>::from_c("@ + p.name@ + ")"@
}

/// The C parameters of a trait impl method's function: the handle, then
/// the parameters.
pub open spec fn impl_sig_items(ps: Seq<TypedParam>) -> Seq<Seq<char>> {
    seq!["handle: *mut core::ffi::c_void"@] + ps.map_values(|p: TypedParam| typed_sig_item(p))
}

/// The arguments of the call: the receiver, then the parameters converted.
pub open spec fn impl_call_items(ps: Seq<TypedParam>) -> Seq<Seq<char>> {
    seq!["obj"@] + ps.map_values(|p: TypedParam| typed_arg(p))
}

/// The C name of a trait impl method's function.
pub open spec fn impl_fn_name(t: TraitImplMeta, m: TraitImplMethod) -> Seq<char> {
    t.prefix@ + "_"@ + camel_to_snake_spec(t.struct_name@) + "_"@ + m.name@
}

/// The C function of a trait impl method: it borrows the handle's value,
/// calls the method through the trait and converts what it returns.
pub open spec fn impl_fn_text(t: TraitImplMeta, m: TraitImplMethod) -> Seq<char> {
    let path = t.struct_path@;
    let ret_sig = match m.ret {
        None => Seq::empty(),
        Some(r) => " -> "@ + c_repr(r@),
    };
    let conversion = match m.ret {
        None => "call_result"@,
        Some(r) => "<"@ + r@ + " as ffier::FfiType>::into_c(call_result)"@,
    };
    "#[unsafe(no_mangle)]\n"@ + "pub unsafe extern \"C\" fn "@ + impl_fn_name(t, m) + "("@ + join_spec(impl_sig_items(m.params@), ", "@) + ")"@
        + ret_sig + " {\n"@ + "    let obj = unsafe { &(*(handle as *const ffier::FfierHandleBox<"@ + path + ">)).value };\n"@
        + "    let call_result = <"@ + path + " as "@ + t.trait_path@ + ">::"@ + m.name@ + "("@ + join_spec(impl_call_items(m.params@), ", "@)
        + ");\n"@ + "    "@ + conversion + "\n"@ + "}\n\n"@
}

/// The functions of the given methods, in order.
pub open spec fn impl_fns_text(t: TraitImplMeta, ms: Seq<TraitImplMethod>) -> Seq<char>
    decreases ms.len(),
{
    if ms.len() == 0 {
        Seq::empty()
    } else {
        impl_fns_text(t, ms.drop_last()) + impl_fn_text(t, ms.last())
    }
}

fn push_item(out: &mut Vec<String>, item: String)
    ensures
        strings_view(final(out)@) == strings_view(old(out)@).push(item@),
{
    let ghost before = out@;
    out.push(item);
    assert(strings_view(out@) =~= strings_view(before).push(item@));
}

fn typed_sig_item_of(p: &TypedParam) -> (r: String)
    ensures
        r@ == typed_sig_item(*p),
{
    let mut s = p.name.clone();
    push_str(&mut s, ": ");
    push_str(&mut s, "<");
    push_str(&mut s, p.bridge_type.as_str());
    push_str(&mut s, " as ffier::FfiType>::CRepr");
    assert(s@ =~= typed_sig_item(*p));
    s
}

fn typed_arg_of(p: &TypedParam) -> (r: String)
    ensures
        r@ == typed_arg(*p),
{
    let mut s = owned("<");
    push_str(&mut s, p.bridge_type.as_str());
    push_str(&mut s, " as ffier::FfiType>::from_c(");
    push_str(&mut s, p.name.as_str());
    push_str(&mut s, ")");
    s
}

/// The parameters' signature items (`sig`) or call arguments (`!sig`),
/// after `first`, joined by commas.
fn joined_items(first: &str, ps: &Vec<TypedParam>, sig: bool) -> (r: String)
    ensures
        sig ==> r@ == join_spec(seq![first@] + ps@.map_values(|p: TypedParam| typed_sig_item(p)), ", "@),
        !sig ==> r@ == join_spec(seq![first@] + ps@.map_values(|p: TypedParam| typed_arg(p)), ", "@),
{
    let ghost items_spec = if sig {
        seq![first@] + ps@.map_values(|p: TypedParam| typed_sig_item(p))
    } else {
        seq![first@] + ps@.map_values(|p: TypedParam| typed_arg(p))
    };
    let mut items: Vec<String> = Vec::new();
    push_item(&mut items, owned(first));
    let mut i: usize = 0;
    while i < ps.len()
        invariant
            i <= ps@.len(),
            items_spec.len() == ps@.len() + 1,
            items_spec[0] == first@,
            forall|k: int| 0 <= k < ps@.len() ==> #[trigger] items_spec[k + 1] == if sig {
                typed_sig_item(ps@[k])
            } else {
                typed_arg(ps@[k])
            },
            strings_view(items@) == items_spec.take(i + 1),
        decreases ps@.len() - i,
    {
        let it = if sig {
            typed_sig_item_of(&ps[i])
        } else {
            typed_arg_of(&ps[i])
        };
        push_item(&mut items, it);
        assert(items_spec[(i as int) + 1] == it@);
        i = i + 1;
        assert(strings_view(items@) =~= items_spec.take(i + 1));
    }
    assert(items_spec.take(ps@.len() as int + 1) =~= items_spec);
    join_strings(items.as_slice(), ", ")
}

fn impl_fn_of(t: &TraitImplMeta, snake: &str, m: &TraitImplMethod) -> (r: String)
    requires
        snake@ == camel_to_snake_spec(t.struct_name@),
    ensures
        r@ == impl_fn_text(*t, *m),
{
    let path = t.struct_path.as_str();
    let mut s = owned("#[unsafe(no_mangle)]\n");
    push_str(&mut s, "pub unsafe extern \"C\" fn ");
    push_str(&mut s, t.prefix.as_str());
    push_str(&mut s, "_");
    push_str(&mut s, snake);
    push_str(&mut s, "_");
    push_str(&mut s, m.name.as_str());
    push_str(&mut s, "(");
    let sig = joined_items("handle: *mut core::ffi::c_void", &m.params, true);
    assert(sig@ == join_spec(impl_sig_items(m.params@), ", "@));
    push_str(&mut s, sig.as_str());
    push_str(&mut s, ")");
    match &m.ret {
        None => {},
        Some(r) => {
            push_str(&mut s, " -> ");
            push_str(&mut s, "<");
            push_str(&mut s, r.as_str());
            push_str(&mut s, " as ffier::FfiType>::CRepr");
        },
    }
    push_str(&mut s, " {\n");
    push_str(&mut s, "    let obj = unsafe { &(*(handle as *const ffier::FfierHandleBox<");
    push_str(&mut s, path);
    push_str(&mut s, ">)).value };\n");
    push_str(&mut s, "    let call_result = <");
    push_str(&mut s, path);
    push_str(&mut s, " as ");
    push_str(&mut s, t.trait_path.as_str());
    push_str(&mut s, ">::");
    push_str(&mut s, m.name.as_str());
    push_str(&mut s, "(");
    let args = joined_items("obj", &m.params, false);
    assert(args@ == join_spec(impl_call_items(m.params@), ", "@));
    push_str(&mut s, args.as_str());
    push_str(&mut s, ");\n");
    push_str(&mut s, "    ");
    match &m.ret {
        None => push_str(&mut s, "call_result"),
        Some(r) => {
            push_str(&mut s, "<");
            push_str(&mut s, r.as_str());
            push_str(&mut s, " as ffier::FfiType>::into_c(call_result)");
        },
    }
    push_str(&mut s, "\n");
    push_str(&mut s, "}\n\n");
    assert(s@ =~= impl_fn_text(*t, *m));
    s
}

/// The `extern "C"` functions of a trait impl: one per method, in order,
/// named after the library prefix, the type and the method.
pub fn trait_impl_bridge_text(t: &TraitImplMeta) -> (r: String)
    ensures
        r@ == impl_fns_text(*t, t.methods@),
{
    let snake = camel_to_snake(t.struct_name.as_str());
    let mut out = String::new();
    let mut i: usize = 0;
    assert(t.methods@.take(0) =~= Seq::<TraitImplMethod>::empty());
    while i < t.methods.len()
        invariant
            i <= t.methods@.len(),
            snake@ == camel_to_snake_spec(t.struct_name@),
            out@ == impl_fns_text(*t, t.methods@.take(i as int)),
        decreases t.methods@.len() - i,
    {
        let text = impl_fn_of(t, snake.as_str(), &t.methods[i]);
        push_str(&mut out, text.as_str());
        assert(t.methods@.take(i + 1).drop_last() =~= t.methods@.take(i as int));
        assert(t.methods@.take(i + 1).last() == t.methods@[i as int]);
        i = i + 1;
    }
    assert(t.methods@.take(t.methods@.len() as int) =~= t.methods@);
    out
}

// ---------------------------------------------------------------------------
// Traits implementable from C
// ---------------------------------------------------------------------------

/// The constructor that makes a handle of a C vtable and its user data:
/// it refuses (aborts on) a vtable larger than the library's, and does not
/// copy the vtable.
pub open spec fn vtable_constructor_text(ctor: Seq<char>, vtable_struct: Seq<char>, wrapper: Seq<char>) -> Seq<char> {
    "#[unsafe(no_mangle)]\n"@ + "pub extern \"C\" fn "@ + ctor + "(user_data: *mut core::ffi::c_void, vtable: *const "@ + vtable_struct
        + ", vtable_size: usize) -> *mut core::ffi::c_void {\n"@ + "    let expected = core::mem::size_of::<"@ + vtable_struct + ">();\n"@
        + "    if vtable_size > expected {\n"@
        + "        eprintln!(\"{}(): vtable_size ({}) exceeds library vtable size ({}) -- aborting\", \""@ + ctor
        + "\", vtable_size, expected);\n"@ + "        std::process::abort();\n"@ + "    }\n"@ + "    let wrapper = "@ + wrapper + " {\n"@
        + "        value: ffier::VtableHandle {\n"@ + "            vtable_ptr: vtable as *const core::ffi::c_void,\n"@
        + "            user_data: user_data as *const core::ffi::c_void,\n"@ + "        },\n"@ + "    };\n"@ + "    <"@ + wrapper
        + " as ffier::FfiType>::into_c(wrapper)\n"@ + "}\n"@
}

/// The constructor function of a trait implementable from C, given its
/// name, the vtable struct's path and the wrapper type's path.
pub fn vtable_constructor(ctor: &str, vtable_struct: &str, wrapper: &str) -> (r: String)
    ensures
        r@ == vtable_constructor_text(ctor@, vtable_struct@, wrapper@),
{
    let mut s = owned("#[unsafe(no_mangle)]\n");
    push_str(&mut s, "pub extern \"C\" fn ");
    push_str(&mut s, ctor);
    push_str(&mut s, "(user_data: *mut core::ffi::c_void, vtable: *const ");
    push_str(&mut s, vtable_struct);
    push_str(&mut s, ", vtable_size: usize) -> *mut core::ffi::c_void {\n");
    push_str(&mut s, "    let expected = core::mem::size_of::<");
    push_str(&mut s, vtable_struct);
    push_str(&mut s, ">();\n");
    push_str(&mut s, "    if vtable_size > expected {\n");
    push_str(&mut s, "        eprintln!(\"{}(): vtable_size ({}) exceeds library vtable size ({}) -- aborting\", \"");
    push_str(&mut s, ctor);
    push_str(&mut s, "\", vtable_size, expected);\n");
    push_str(&mut s, "        std::process::abort();\n");
    push_str(&mut s, "    }\n");
    push_str(&mut s, "    let wrapper = ");
    push_str(&mut s, wrapper);
    push_str(&mut s, " {\n");
    push_str(&mut s, "        value: ffier::VtableHandle {\n");
    push_str(&mut s, "            vtable_ptr: vtable as *const core::ffi::c_void,\n");
    push_str(&mut s, "            user_data: user_data as *const core::ffi::c_void,\n");
    push_str(&mut s, "        },\n");
    push_str(&mut s, "    };\n");
    push_str(&mut s, "    <");
    push_str(&mut s, wrapper);
    push_str(&mut s, " as ffier::FfiType>::into_c(wrapper)\n");
    push_str(&mut s, "}\n");
    assert(s@ =~= vtable_constructor_text(ctor@, vtable_struct@, wrapper@));
    s
}

// ---------------------------------------------------------------------------
// Error types
// ---------------------------------------------------------------------------

/// The functions of an error type: `{prefix}_{error}_message`, which gives
/// the error's own message if it carries one and else the static message of
/// its code, and `{prefix}_{error}_free`, which frees the message.
pub open spec fn error_bridge_spec(prefix: Seq<char>, name: Seq<char>, path: Seq<char>) -> Seq<char> {
    let base = prefix + "_"@ + camel_to_snake_spec(name);
    "#[unsafe(no_mangle)]\n"@ + "pub unsafe extern \"C\" fn "@ + base + "_message(err: *const ffier::FfierError) -> *const core::ffi::c_char {\n"@
        + "    let err = unsafe { &*err };\n"@ + "    let ptr = err.msg_ptr();\n"@ + "    if !ptr.is_null() { return ptr; }\n"@ + "    <"@ + path
        + " as ffier::FfiError>::static_message(err.code).as_ptr()\n"@ + "}\n\n"@ + "#[unsafe(no_mangle)]\n"@
        + "pub unsafe extern \"C\" fn "@ + base + "_free(err: *mut ffier::FfierError) {\n"@ + "    unsafe { (*err).free() };\n"@ + "}\n"@
}

/// The bridge functions of an error type, given the library prefix, the
/// type's name and its path.
pub fn error_bridge_text(prefix: &str, name: &str, path: &str) -> (r: String)
    ensures
        r@ == error_bridge_spec(prefix@, name@, path@),
{
    let mut base = owned(prefix);
    push_str(&mut base, "_");
    push_str(&mut base, camel_to_snake(name).as_str());
    let mut s = owned("#[unsafe(no_mangle)]\n");
    push_str(&mut s, "pub unsafe extern \"C\" fn ");
    push_str(&mut s, base.as_str());
    push_str(&mut s, "_message(err: *const ffier::FfierError) -> *const core::ffi::c_char {\n");
    push_str(&mut s, "    let err = unsafe { &*err };\n");
    push_str(&mut s, "    let ptr = err.msg_ptr();\n");
    push_str(&mut s, "    if !ptr.is_null() { return ptr; }\n");
    push_str(&mut s, "    <");
    push_str(&mut s, path);
    push_str(&mut s, " as ffier::FfiError>::static_message(err.code).as_ptr()\n");
    push_str(&mut s, "}\n\n");
    push_str(&mut s, "#[unsafe(no_mangle)]\n");
    push_str(&mut s, "pub unsafe extern \"C\" fn ");
    push_str(&mut s, base.as_str());
    push_str(&mut s, "_free(err: *mut ffier::FfierError) {\n");
    push_str(&mut s, "    unsafe { (*err).free() };\n");
    push_str(&mut s, "}\n");
    assert(s@ =~= error_bridge_spec(prefix@, name@, path@));
    s
}

// ---------------------------------------------------------------------------
// Dispatch on the implementors of an implementable trait
// ---------------------------------------------------------------------------

/// A method of an implementable trait (one of the trait's own methods).
pub struct SelfDispatchMethod {
    pub name: String,
    pub params: Vec<TypedParam>,
    /// The bridge type returned (none for `()`).
    pub ret: Option<String>,
    /// The trait gives the method a default body.
    pub has_default: bool,
}

/// An implementable trait with the types that implement it.
pub struct SelfDispatchMeta {
    pub trait_name: String,
    /// The trait's path, as text.
    pub trait_path: String,
    /// The path of the wrapper type around a C vtable, as text.
    pub wrapper_path: String,
    /// The library's C prefix.
    pub prefix: String,
    /// The implementing types, the vtable wrapper among them.
    pub variants: Vec<TraitVariant>,
    /// The trait's own methods, in vtable order.
    pub methods: Vec<SelfDispatchMethod>,
}

/// The module part of a path: everything up to and including its last
/// `::` (empty when there is none).
pub open spec fn path_parent(p: Seq<char>) -> Seq<char>
    decreases p.len(),
{
    if p.len() < 2 {
        Seq::empty()
    } else if p[p.len() - 2] == ':' && p[p.len() - 1] == ':' {
        p
    } else {
        path_parent(p.drop_last())
    }
}

/// The module part of a path.
pub fn path_parent_of(p: &str) -> (r: String)
    ensures
        r@ == path_parent(p@),
{
    let v = chars_of(p);
    let mut n: usize = v.len();
    assert(v@.take(n as int) =~= v@);
    while n >= 2 && !(v[n - 2] == ':' && v[n - 1] == ':')
        invariant
            n <= v@.len(),
            path_parent(p@) == path_parent(v@.take(n as int)),
            v@ == p@,
        decreases n,
    {
        assert(v@.take(n as int).drop_last() =~= v@.take(n - 1));
        n = n - 1;
    }
    if n < 2 {
        String::new()
    } else {
        let w = slice_range(v.as_slice(), 0, n);
        assert(w@ =~= v@.take(n as int));
        string_of(w.as_slice())
    }
}

/// The borrow of a handle's value as `&T`, bound to `obj`.
pub open spec fn borrow_obj(ty: Seq<char>) -> Seq<char> {
    "let obj = unsafe { &(*(handle as *const ffier::FfierHandleBox<"@ + ty + ">)).value };\n"@
}

/// A call of `target` with the given arguments that returns from the
/// function with the converted result (or, for `()`, just makes the call).
pub open spec fn dispatch_call(target: Seq<char>, ret: Option<String>, args: Seq<char>) -> Seq<char> {
    match ret {
        None => target + "("@ + args + ");\n"@,
        Some(r) => "let call_result = "@ + target + "("@ + args + ");\n"@ + "return <"@ + r@ + " as ffier::FfiType>::into_c(call_result);\n"@,
    }
}

/// The C name of a dispatching function.
pub open spec fn sd_fn_name(d: SelfDispatchMeta, m: SelfDispatchMethod) -> Seq<char> {
    d.prefix@ + "_"@ + camel_to_snake_spec(d.trait_name@) + "_"@ + m.name@
}

/// The default body's helper, next to the trait.
pub open spec fn default_helper(d: SelfDispatchMeta, m: SelfDispatchMethod) -> Seq<char> {
    path_parent(d.trait_path@) + default_helper_name(d.trait_name@, m.name@)
}

/// For the vtable wrapper of a method with a default body: when the handle's
/// metadata marks a call of this method's default (bit 0 set, method index
/// in bits 1 to 15), the library's default is called instead of the vtable.
pub open spec fn default_guard(d: SelfDispatchMeta, m: SelfDispatchMethod, index: nat, ty: Seq<char>) -> Seq<char> {
    if ty == d.wrapper_path@ && m.has_default {
        let args = join_spec(impl_call_items(m.params@), ", "@);
        let call = match m.ret {
            None => default_helper(d, m) + "("@ + args + ");\n"@ + "return;\n"@,
            Some(_) => dispatch_call(default_helper(d, m), m.ret, args),
        };
        "let __metadata = unsafe { ffier::handle_metadata(handle) };\n"@ + "if __metadata & 1 != 0 && (__metadata >> 1) & 0x7FFF == "@
            + decimal(index) + " {\n"@ + borrow_obj(ty) + call + "}\n"@
    } else {
        Seq::empty()
    }
}

/// The branches of a dispatching function, one per implementing type.
pub open spec fn sd_branches(d: SelfDispatchMeta, m: SelfDispatchMethod, index: nat, vs: Seq<TraitVariant>) -> Seq<char>
    decreases vs.len(),
{
    if vs.len() == 0 {
        Seq::empty()
    } else {
        let ty = vs.last().bridge_type@;
        let target = "<"@ + ty + " as "@ + d.trait_path@ + ">::"@ + m.name@;
        sd_branches(d, m, index, vs.drop_last()) + "if __type_tag == <"@ + ty + " as ffier::FfiHandle>::TYPE_TAG {\n"@ + default_guard(
            d,
            m,
            index,
            ty,
        ) + borrow_obj(ty) + dispatch_call(target, m.ret, join_spec(impl_call_items(m.params@), ", "@)) + "} else "@
    }
}

/// The call when no implementing type matches the handle.
pub open spec fn implementor_panic(d: SelfDispatchMeta, ffi: Seq<char>) -> Seq<char> {
    "__ffier_dispatch_panic(\""@ + ffi + "\", \""@ + d.trait_name@ + " implementor\", __FFIER_ACCEPTED_"@ + d.trait_name@
        + ", __type_tag);\n"@
}

/// The dispatching function of the `index`-th method: it reads the handle's
/// type tag and calls the method of the type found, refusing a handle of a
/// type that does not implement the trait.
pub open spec fn sd_method_text(d: SelfDispatchMeta, m: SelfDispatchMethod, index: nat) -> Seq<char> {
    let ffi = sd_fn_name(d, m);
    let ret_sig = match m.ret {
        None => Seq::empty(),
        Some(r) => " -> "@ + c_repr(r@),
    };
    "#[unsafe(no_mangle)]\n"@ + "pub unsafe extern \"C\" fn "@ + ffi + "("@ + join_spec(impl_sig_items(m.params@), ", "@) + ")"@ + ret_sig
        + " {\n"@ + "    let __type_tag = unsafe { ffier::handle_type_tag(handle) };\n"@ + sd_branches(d, m, index, d.variants@) + "{\n"@
        + implementor_panic(d, ffi) + "}\n"@ + "}\n\n"@
}

/// The dispatching functions of the given methods, in order, each with its
/// position as method index.
pub open spec fn sd_methods_text(d: SelfDispatchMeta, ms: Seq<SelfDispatchMethod>) -> Seq<char>
    decreases ms.len(),
{
    if ms.len() == 0 {
        Seq::empty()
    } else {
        sd_methods_text(d, ms.drop_last()) + sd_method_text(d, ms.last(), (ms.len() - 1) as nat)
    }
}

/// The branches of the dispatching destroy function.
pub open spec fn sd_destroy_branches(vs: Seq<TraitVariant>) -> Seq<char>
    decreases vs.len(),
{
    if vs.len() == 0 {
        Seq::empty()
    } else {
        let ty = vs.last().bridge_type@;
        sd_destroy_branches(vs.drop_last()) + "if __type_tag == <"@ + ty + " as ffier::FfiHandle>::TYPE_TAG {\n"@
            + "drop(unsafe { Box::from_raw(handle as *mut ffier::FfierHandleBox<"@ + ty + ">) });\n"@ + "} else "@
    }
}

/// The dispatching destroy function: it frees a handle of any implementing
/// type and refuses any other.
pub open spec fn sd_destroy_text(d: SelfDispatchMeta) -> Seq<char> {
    let name = d.prefix@ + "_"@ + camel_to_snake_spec(d.trait_name@) + "_destroy"@;
    "#[unsafe(no_mangle)]\n"@ + "pub unsafe extern \"C\" fn "@ + name + "(handle: *mut core::ffi::c_void) {\n"@ + "    if !handle.is_null() {\n"@
        + "        let __type_tag = unsafe { ffier::handle_type_tag(handle) };\n"@ + sd_destroy_branches(d.variants@) + "{\n"@
        + implementor_panic(d, name) + "}\n"@ + "    }\n"@ + "}\n"@
}

/// The dispatching bridge of an implementable trait.
pub open spec fn self_dispatch_spec(d: SelfDispatchMeta) -> Seq<char> {
    sd_methods_text(d, d.methods@) + sd_destroy_text(d)
}

fn borrow_obj_of(ty: &str) -> (r: String)
    ensures
        r@ == borrow_obj(ty@),
{
    let mut s = owned("let obj = unsafe { &(*(handle as *const ffier::FfierHandleBox<");
    push_str(&mut s, ty);
    push_str(&mut s, ">)).value };\n");
    s
}

fn dispatch_call_of(target: &str, ret: &Option<String>, args: &str) -> (r: String)
    ensures
        r@ == dispatch_call(target@, *ret, args@),
{
    match ret {
        None => {
            let mut s = owned(target);
            push_str(&mut s, "(");
            push_str(&mut s, args);
            push_str(&mut s, ");\n");
            s
        },
        Some(r) => {
            let mut s = owned("let call_result = ");
            push_str(&mut s, target);
            push_str(&mut s, "(");
            push_str(&mut s, args);
            push_str(&mut s, ");\n");
            push_str(&mut s, "return <");
            push_str(&mut s, r.as_str());
            push_str(&mut s, " as ffier::FfiType>::into_c(call_result);\n");
            s
        },
    }
}

fn default_guard_of(d: &SelfDispatchMeta, m: &SelfDispatchMethod, index: u64, ty: &str, args: &str) -> (r: String)
    requires
        args@ == join_spec(impl_call_items(m.params@), ", "@),
    ensures
        r@ == default_guard(*d, *m, index as nat, ty@),
{
    if m.has_default && str_eq(ty, d.wrapper_path.as_str()) {
        let mut helper = path_parent_of(d.trait_path.as_str());
        push_str(&mut helper, "__ffier_default_");
        push_str(&mut helper, d.trait_name.as_str());
        push_str(&mut helper, "_");
        push_str(&mut helper, m.name.as_str());
        let call = match &m.ret {
            None => {
                let mut c = helper.clone();
                push_str(&mut c, "(");
                push_str(&mut c, args);
                push_str(&mut c, ");\n");
                push_str(&mut c, "return;\n");
                c
            },
            Some(_) => dispatch_call_of(helper.as_str(), &m.ret, args),
        };
        let mut s = owned("let __metadata = unsafe { ffier::handle_metadata(handle) };\n");
        push_str(&mut s, "if __metadata & 1 != 0 && (__metadata >> 1) & 0x7FFF == ");
        push_decimal(&mut s, index);
        push_str(&mut s, " {\n");
        push_str(&mut s, borrow_obj_of(ty).as_str());
        push_str(&mut s, call.as_str());
        push_str(&mut s, "}\n");
        assert(helper@ =~= default_helper(*d, *m));
        assert(s@ =~= default_guard(*d, *m, index as nat, ty@));
        s
    } else {
        String::new()
    }
}

fn sd_method_of(d: &SelfDispatchMeta, snake: &str, m: &SelfDispatchMethod, index: u64) -> (r: String)
    requires
        snake@ == camel_to_snake_spec(d.trait_name@),
    ensures
        r@ == sd_method_text(*d, *m, index as nat),
{
    let mut ffi = owned(d.prefix.as_str());
    push_str(&mut ffi, "_");
    push_str(&mut ffi, snake);
    push_str(&mut ffi, "_");
    push_str(&mut ffi, m.name.as_str());
    assert(ffi@ =~= sd_fn_name(*d, *m));
    let args = joined_items("obj", &m.params, false);
    assert(args@ == join_spec(impl_call_items(m.params@), ", "@));
    let mut branches = String::new();
    let mut i: usize = 0;
    assert(d.variants@.take(0) =~= Seq::<TraitVariant>::empty());
    while i < d.variants.len()
        invariant
            i <= d.variants@.len(),
            args@ == join_spec(impl_call_items(m.params@), ", "@),
            branches@ == sd_branches(*d, *m, index as nat, d.variants@.take(i as int)),
        decreases d.variants@.len() - i,
    {
        let ty = d.variants[i].bridge_type.as_str();
        let mut target = owned("<");
        push_str(&mut target, ty);
        push_str(&mut target, " as ");
        push_str(&mut target, d.trait_path.as_str());
        push_str(&mut target, ">::");
        push_str(&mut target, m.name.as_str());
        push_str(&mut branches, "if __type_tag == <");
        push_str(&mut branches, ty);
        push_str(&mut branches, " as ffier::FfiHandle>::TYPE_TAG {\n");
        push_str(&mut branches, default_guard_of(d, m, index, ty, args.as_str()).as_str());
        push_str(&mut branches, borrow_obj_of(ty).as_str());
        push_str(&mut branches, dispatch_call_of(target.as_str(), &m.ret, args.as_str()).as_str());
        push_str(&mut branches, "} else ");
        assert(d.variants@.take(i + 1).drop_last() =~= d.variants@.take(i as int));
        assert(d.variants@.take(i + 1).last() == d.variants@[i as int]);
        i = i + 1;
    }
    assert(d.variants@.take(d.variants@.len() as int) =~= d.variants@);
    let mut s = owned("#[unsafe(no_mangle)]\n");
    push_str(&mut s, "pub unsafe extern \"C\" fn ");
    push_str(&mut s, ffi.as_str());
    push_str(&mut s, "(");
    let sig = joined_items("handle: *mut core::ffi::c_void", &m.params, true);
    assert(sig@ == join_spec(impl_sig_items(m.params@), ", "@));
    push_str(&mut s, sig.as_str());
    push_str(&mut s, ")");
    match &m.ret {
        None => {},
        Some(r) => {
            push_str(&mut s, " -> ");
            push_str(&mut s, "<");
            push_str(&mut s, r.as_str());
            push_str(&mut s, " as ffier::FfiType>::CRepr");
        },
    }
    push_str(&mut s, " {\n");
    push_str(&mut s, "    let __type_tag = unsafe { ffier::handle_type_tag(handle) };\n");
    push_str(&mut s, branches.as_str());
    push_str(&mut s, "{\n");
    push_str(&mut s, implementor_panic_of(d, ffi.as_str()).as_str());
    push_str(&mut s, "}\n");
    push_str(&mut s, "}\n\n");
    assert(s@ =~= sd_method_text(*d, *m, index as nat));
    s
}

fn implementor_panic_of(d: &SelfDispatchMeta, ffi: &str) -> (r: String)
    ensures
        r@ == implementor_panic(*d, ffi@),
{
    let mut s = owned("__ffier_dispatch_panic(\"");
    push_str(&mut s, ffi);
    push_str(&mut s, "\", \"");
    push_str(&mut s, d.trait_name.as_str());
    push_str(&mut s, " implementor\", __FFIER_ACCEPTED_");
    push_str(&mut s, d.trait_name.as_str());
    push_str(&mut s, ", __type_tag);\n");
    s
}

fn sd_destroy_of(d: &SelfDispatchMeta, snake: &str) -> (r: String)
    requires
        snake@ == camel_to_snake_spec(d.trait_name@),
    ensures
        r@ == sd_destroy_text(*d),
{
    let mut out = String::new();
    let mut name = owned(d.prefix.as_str());
    push_str(&mut name, "_");
    push_str(&mut name, snake);
    push_str(&mut name, "_destroy");
    let mut branches = String::new();
    let mut k: usize = 0;
    assert(d.variants@.take(0) =~= Seq::<TraitVariant>::empty());
    while k < d.variants.len()
        invariant
            k <= d.variants@.len(),
            branches@ == sd_destroy_branches(d.variants@.take(k as int)),
        decreases d.variants@.len() - k,
    {
        let ty = d.variants[k].bridge_type.as_str();
        push_str(&mut branches, "if __type_tag == <");
        push_str(&mut branches, ty);
        push_str(&mut branches, " as ffier::FfiHandle>::TYPE_TAG {\n");
        push_str(&mut branches, "drop(unsafe { Box::from_raw(handle as *mut ffier::FfierHandleBox<");
        push_str(&mut branches, ty);
        push_str(&mut branches, ">) });\n");
        push_str(&mut branches, "} else ");
        assert(d.variants@.take(k + 1).drop_last() =~= d.variants@.take(k as int));
        assert(d.variants@.take(k + 1).last() == d.variants@[k as int]);
        k = k + 1;
    }
    assert(d.variants@.take(d.variants@.len() as int) =~= d.variants@);
    push_str(&mut out, "#[unsafe(no_mangle)]\n");
    push_str(&mut out, "pub unsafe extern \"C\" fn ");
    push_str(&mut out, name.as_str());
    push_str(&mut out, "(handle: *mut core::ffi::c_void) {\n");
    push_str(&mut out, "    if !handle.is_null() {\n");
    push_str(&mut out, "        let __type_tag = unsafe { ffier::handle_type_tag(handle) };\n");
    push_str(&mut out, branches.as_str());
    push_str(&mut out, "{\n");
    push_str(&mut out, implementor_panic_of(d, name.as_str()).as_str());
    push_str(&mut out, "}\n");
    push_str(&mut out, "    }\n");
    push_str(&mut out, "}\n");
    assert(out@ =~= sd_destroy_text(*d));
    out
}

/// The dispatching bridge of an implementable trait: for each of the
/// trait's own methods, a C function that calls the method of whichever
/// implementing type the handle holds (calling the library's default body
/// when a vtable implementation asks for it), then the destroy function.
pub fn self_dispatch_bridge_text(d: &SelfDispatchMeta) -> (r: String)
    ensures
        r@ == self_dispatch_spec(*d),
{
    let snake = camel_to_snake(d.trait_name.as_str());
    let mut out = String::new();
    let mut i: usize = 0;
    assert(d.methods@.take(0) =~= Seq::<SelfDispatchMethod>::empty());
    while i < d.methods.len()
        invariant
            i <= d.methods@.len(),
            snake@ == camel_to_snake_spec(d.trait_name@),
            out@ == sd_methods_text(*d, d.methods@.take(i as int)),
        decreases d.methods@.len() - i,
    {
        let text = sd_method_of(d, snake.as_str(), &d.methods[i], i as u64);
        push_str(&mut out, text.as_str());
        assert(d.methods@.take(i + 1).drop_last() =~= d.methods@.take(i as int));
        assert(d.methods@.take(i + 1).last() == d.methods@[i as int]);
        i = i + 1;
    }
    assert(d.methods@.take(d.methods@.len() as int) =~= d.methods@);
    push_str(&mut out, sd_destroy_of(d, snake.as_str()).as_str());
    assert(out@ =~= self_dispatch_spec(*d));
    out
}

} // verus!
