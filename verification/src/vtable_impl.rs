//! The methods of the vtable wrapper of an implementable trait: each reads
//! its function pointer from the C vtable (by the field's offset, so that a
//! shorter vtable from an older header reads as absent), calls it on the
//! user data with the arguments converted, and otherwise falls back on the
//! trait's default body or panics.

use vstd::prelude::*;
use crate::text::{join_spec, join_strings, owned, push_str, strings_view};

verus! {

/// A parameter of a vtable method.
pub struct WrapperParam {
    pub name: String,
    /// The Rust type (lifetimes as written), as text.
    pub rust_type: String,
    /// The bridge type, as text.
    pub bridge_type: String,
    /// The parameter is an `impl Trait`.
    pub impl_trait: bool,
}

/// A method of the wrapper.
pub struct WrapperMethod {
    pub name: String,
    /// The method's signature, as text.
    pub sig: String,
    pub params: Vec<WrapperParam>,
    /// The bridge type returned (none for nothing).
    pub ret_bridge: Option<String>,
    /// The trait gives the method a default body (kept in a helper).
    pub has_default: bool,
}

/// The type of a parameter in the function pointer.
pub open spec fn ptr_param_type(p: WrapperParam) -> Seq<char> {
    if p.impl_trait {
        "*mut core::ffi::c_void"@
    } else {
        "<"@ + p.bridge_type@ + " as ffier::FfiType>::CRepr"@
    }
}

/// The argument passed through the function pointer for a parameter.
pub open spec fn ptr_arg(p: WrapperParam) -> Seq<char> {
    if p.impl_trait {
        "core::ptr::null_mut()"@
    } else {
        "<"@ + p.rust_type@ + " as ffier::FfiType>::into_c("@ + p.name@ + ")"@
    }
}

/// What is written for each parameter, by kind: 0 its pointer type, 1 its
/// argument, 2 its name.
pub open spec fn param_item(kind: int, p: WrapperParam) -> Seq<char> {
    if kind == 0 {
        ptr_param_type(p)
    } else if kind == 1 {
        ptr_arg(p)
    } else {
        p.name@
    }
}

/// A list after a leading item, joined by `, `.
pub open spec fn param_list(lead: Seq<char>, kind: int, ps: Seq<WrapperParam>) -> Seq<char> {
    join_spec(seq![lead] + ps.map_values(|p: WrapperParam| param_item(kind, p)), ", "@)
}

/// Some parameter is an `impl Trait`.
pub open spec fn has_impl_trait(ps: Seq<WrapperParam>) -> bool {
    exists|i: int| 0 <= i < ps.len() && (#[trigger] ps[i]).impl_trait
}

/// The function pointer type of the method's vtable field.
pub open spec fn fn_ptr_type(m: WrapperMethod) -> Seq<char> {
    "unsafe extern \"C\" fn("@ + param_list("*mut core::ffi::c_void"@, 0, m.params@) + ")"@ + match m.ret_bridge {
        None => Seq::empty(),
        Some(bt) => " -> <"@ + bt@ + " as ffier::FfiType>::CRepr"@,
    }
}

/// The call through the function pointer.
pub open spec fn raw_call(m: WrapperMethod) -> Seq<char> {
    "unsafe { __f("@ + param_list("self.value.user_data as *mut core::ffi::c_void"@, 1, m.params@) + ") }"@
}

/// What the method does when the vtable provides the function: a method
/// with an `impl Trait` parameter cannot go through C and panics; another
/// calls it and converts the result.
pub open spec fn vtable_branch(w: Seq<char>, m: WrapperMethod) -> Seq<char> {
    if has_impl_trait(m.params@) {
        "let _ = __f;\n"@ + "panic!(\"{}: vtable dispatch for method `{}` with impl Trait params is not supported\", \""@ + w + "\", \""@ + m.name@
            + "\")"@
    } else {
        match m.ret_bridge {
            None => raw_call(m),
            Some(bt) => "<"@ + bt@ + " as ffier::FfiType>::from_c("@ + raw_call(m) + ")"@,
        }
    }
}

/// What the method does when the vtable lacks the function: the trait's
/// default body (through its helper) or a panic for a required method.
pub open spec fn none_branch(w: Seq<char>, trait_name: Seq<char>, m: WrapperMethod) -> Seq<char> {
    if m.has_default {
        "$crate::__ffier_default_"@ + trait_name + "_"@ + m.name@ + "("@ + param_list("self"@, 2, m.params@) + ")"@
    } else {
        "panic!(\"{}: required vtable method `{}` not provided\", \""@ + w + "\", \""@ + m.name@ + "\")"@
    }
}

/// The method of the wrapper `w` for a vtable struct named `vs`.
pub open spec fn wrapper_method_text(w: Seq<char>, vs: Seq<char>, trait_name: Seq<char>, m: WrapperMethod) -> Seq<char> {
    m.sig@ + " {\n"@ + "    let __field: Option<"@ + fn_ptr_type(m) + "> = unsafe {\n"@ + "        self.value.field_or_none(\n"@
        + "            core::mem::offset_of!("@ + vs + ", "@ + m.name@ + "),\n"@ + "        )\n"@ + "    };\n"@ + "    match __field {\n"@
        + "        Some(__f) => { "@ + vtable_branch(w, m) + " }\n"@ + "        None => { "@ + none_branch(w, trait_name, m) + " }\n"@
        + "    }\n"@ + "}\n"@
}

fn param_item_of(kind: u8, p: &WrapperParam) -> (r: String)
    requires
        kind <= 2,
    ensures
        r@ == param_item(kind as int, *p),
{
    if kind == 0 {
        if p.impl_trait {
            owned("*mut core::ffi::c_void")
        } else {
            let mut s = owned("<");
            push_str(&mut s, p.bridge_type.as_str());
            push_str(&mut s, " as ffier::FfiType>::CRepr");
            s
        }
    } else if kind == 1 {
        if p.impl_trait {
            owned("core::ptr::null_mut()")
        } else {
            let mut s = owned("<");
            push_str(&mut s, p.rust_type.as_str());
            push_str(&mut s, " as ffier::FfiType>::into_c(");
            push_str(&mut s, p.name.as_str());
            push_str(&mut s, ")");
            s
        }
    } else {
        owned(p.name.as_str())
    }
}

fn param_list_of(lead: &str, kind: u8, ps: &Vec<WrapperParam>) -> (r: String)
    requires
        kind <= 2,
    ensures
        r@ == param_list(lead@, kind as int, ps@),
{
    let ghost want = seq![lead@] + ps@.map_values(|p: WrapperParam| param_item(kind as int, p));
    let mut items: Vec<String> = Vec::new();
    items.push(owned(lead));
    let mut i: usize = 0;
    assert(strings_view(items@) =~= want.take(1));
    while i < ps.len()
        invariant
            i <= ps@.len(),
            kind <= 2,
            want == seq![lead@] + ps@.map_values(|p: WrapperParam| param_item(kind as int, p)),
            strings_view(items@) == want.take(i + 1),
        decreases ps@.len() - i,
    {
        let ghost before = items@;
        let it = param_item_of(kind, &ps[i]);
        let ghost it_v = it@;
        items.push(it);
        assert(strings_view(items@) =~= strings_view(before).push(it_v));
        assert(want[i + 1] == param_item(kind as int, ps@[i as int]));
        i = i + 1;
        assert(strings_view(items@) =~= want.take(i + 1));
    }
    assert(want.take(ps@.len() as int + 1) =~= want);
    join_strings(items.as_slice(), ", ")
}

fn has_impl_trait_of(ps: &Vec<WrapperParam>) -> (r: bool)
    ensures
        r == has_impl_trait(ps@),
{
    let mut i: usize = 0;
    while i < ps.len()
        invariant
            i <= ps@.len(),
            forall|j: int| 0 <= j < i ==> !(#[trigger] ps@[j]).impl_trait,
        decreases ps@.len() - i,
    {
        if ps[i].impl_trait {
            return true;
        }
        i = i + 1;
    }
    false
}

fn raw_call_of(m: &WrapperMethod) -> (r: String)
    ensures
        r@ == raw_call(*m),
{
    let mut s = owned("unsafe { __f(");
    push_str(&mut s, param_list_of("self.value.user_data as *mut core::ffi::c_void", 1, &m.params).as_str());
    push_str(&mut s, ") }");
    s
}

/// The method of the vtable wrapper `wrapper` (whose vtable struct is named
/// `vtable_struct`) of the trait `trait_name`.
pub fn wrapper_method(wrapper: &str, vtable_struct: &str, trait_name: &str, m: &WrapperMethod) -> (r: String)
    ensures
        r@ == wrapper_method_text(wrapper@, vtable_struct@, trait_name@, *m),
{
    let mut ptr_ty = owned("unsafe extern \"C\" fn(");
    push_str(&mut ptr_ty, param_list_of("*mut core::ffi::c_void", 0, &m.params).as_str());
    push_str(&mut ptr_ty, ")");
    match &m.ret_bridge {
        None => {},
        Some(bt) => {
            push_str(&mut ptr_ty, " -> <");
            push_str(&mut ptr_ty, bt.as_str());
            push_str(&mut ptr_ty, " as ffier::FfiType>::CRepr");
        },
    }
    assert(ptr_ty@ =~= fn_ptr_type(*m));
    let branch = if has_impl_trait_of(&m.params) {
        let mut b = owned("let _ = __f;\n");
        push_str(&mut b, "panic!(\"{}: vtable dispatch for method `{}` with impl Trait params is not supported\", \"");
        push_str(&mut b, wrapper);
        push_str(&mut b, "\", \"");
        push_str(&mut b, m.name.as_str());
        push_str(&mut b, "\")");
        b
    } else {
        match &m.ret_bridge {
            None => raw_call_of(m),
            Some(bt) => {
                let mut b = owned("<");
                push_str(&mut b, bt.as_str());
                push_str(&mut b, " as ffier::FfiType>::from_c(");
                push_str(&mut b, raw_call_of(m).as_str());
                push_str(&mut b, ")");
                b
            },
        }
    };
    assert(branch@ =~= vtable_branch(wrapper@, *m));
    let fallback = if m.has_default {
        let mut f = owned("$crate::__ffier_default_");
        push_str(&mut f, trait_name);
        push_str(&mut f, "_");
        push_str(&mut f, m.name.as_str());
        push_str(&mut f, "(");
        push_str(&mut f, param_list_of("self", 2, &m.params).as_str());
        push_str(&mut f, ")");
        f
    } else {
        let mut f = owned("panic!(\"{}: required vtable method `{}` not provided\", \"");
        push_str(&mut f, wrapper);
        push_str(&mut f, "\", \"");
        push_str(&mut f, m.name.as_str());
        push_str(&mut f, "\")");
        f
    };
    assert(fallback@ =~= none_branch(wrapper@, trait_name@, *m));
    let mut s = owned(m.sig.as_str());
    push_str(&mut s, " {\n");
    push_str(&mut s, "    let __field: Option<");
    push_str(&mut s, ptr_ty.as_str());
    push_str(&mut s, "> = unsafe {\n");
    push_str(&mut s, "        self.value.field_or_none(\n");
    push_str(&mut s, "            core::mem::offset_of!(");
    push_str(&mut s, vtable_struct);
    push_str(&mut s, ", ");
    push_str(&mut s, m.name.as_str());
    push_str(&mut s, "),\n");
    push_str(&mut s, "        )\n");
    push_str(&mut s, "    };\n");
    push_str(&mut s, "    match __field {\n");
    push_str(&mut s, "        Some(__f) => { ");
    push_str(&mut s, branch.as_str());
    push_str(&mut s, " }\n");
    push_str(&mut s, "        None => { ");
    push_str(&mut s, fallback.as_str());
    push_str(&mut s, " }\n");
    push_str(&mut s, "    }\n");
    push_str(&mut s, "}\n");
    assert(s@ =~= wrapper_method_text(wrapper@, vtable_struct@, trait_name@, *m));
    s
}

/// What the annotation reads of a trait method to decide on default bodies.
pub struct TraitFnShape {
    pub name: String,
    pub has_default: bool,
    /// The method takes the raw handle and is not dispatched through the
    /// vtable.
    pub raw_handle: bool,
}

/// The refusal of a default body in a foreign trait.
pub open spec fn foreign_default_message() -> Seq<char> {
    "foreign trait methods must not have default bodies (the defaults live in the foreign crate)"@
}

/// A foreign trait's defaults live in the foreign crate, so the first of
/// its methods with a default body (other than a raw-handle method, which
/// keeps its body) is refused, with its position and the message.
pub fn first_foreign_default(ms: &[TraitFnShape]) -> (r: Option<(usize, String)>)
    ensures
        match r {
            Some((i, msg)) => i < ms@.len() && ms@[i as int].has_default && !ms@[i as int].raw_handle && msg@ == foreign_default_message()
                && forall|j: int| 0 <= j < i ==> !((#[trigger] ms@[j]).has_default && !ms@[j].raw_handle),
            None => forall|j: int| 0 <= j < ms@.len() ==> !((#[trigger] ms@[j]).has_default && !ms@[j].raw_handle),
        },
{
    let mut i: usize = 0;
    while i < ms.len()
        invariant
            i <= ms@.len(),
            forall|j: int| 0 <= j < i ==> !((#[trigger] ms@[j]).has_default && !ms@[j].raw_handle),
        decreases ms@.len() - i,
    {
        if ms[i].has_default && !ms[i].raw_handle {
            return Some((i, owned("foreign trait methods must not have default bodies (the defaults live in the foreign crate)")));
        }
        i = i + 1;
    }
    None
}

/// The helper that keeps a method's default body: `__ffier_default_{Trait}_{method}`.
pub open spec fn default_helper_name(trait_name: Seq<char>, method: Seq<char>) -> Seq<char> {
    "__ffier_default_"@ + trait_name + "_"@ + method
}

/// The trait's new default body: a call of the helper with `self` and the
/// parameters, in order.
pub open spec fn default_body_text(trait_name: Seq<char>, method: Seq<char>, params: Seq<Seq<char>>) -> Seq<char> {
    "{ "@ + default_helper_name(trait_name, method) + "("@ + join_spec(seq!["self"@] + params, ", "@) + ") }"@
}

/// The body that replaces a default method's body in the trait, which
/// moves into the helper.
pub fn default_body(trait_name: &str, method: &str, params: &[String]) -> (r: String)
    ensures
        r@ == default_body_text(trait_name@, method@, strings_view(params@)),
{
    let mut items: Vec<String> = Vec::new();
    items.push(owned("self"));
    let mut i: usize = 0;
    assert(strings_view(items@) =~= seq!["self"@] + strings_view(params@).take(0));
    while i < params.len()
        invariant
            i <= params@.len(),
            strings_view(items@) == seq!["self"@] + strings_view(params@).take(i as int),
        decreases params@.len() - i,
    {
        let ghost before = items@;
        items.push(owned(params[i].as_str()));
        assert(strings_view(items@) =~= strings_view(before).push(params@[i as int]@));
        i = i + 1;
        assert(strings_view(items@) =~= seq!["self"@] + strings_view(params@).take(i as int));
    }
    assert(strings_view(params@).take(params@.len() as int) =~= strings_view(params@));
    let mut s = owned("{ ");
    push_str(&mut s, "__ffier_default_");
    push_str(&mut s, trait_name);
    push_str(&mut s, "_");
    push_str(&mut s, method);
    push_str(&mut s, "(");
    push_str(&mut s, join_strings(items.as_slice(), ", ").as_str());
    push_str(&mut s, ") }");
    assert(s@ =~= default_body_text(trait_name@, method@, strings_view(params@)));
    s
}

} // verus!
