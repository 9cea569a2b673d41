//! Lookups that the Rust client generator makes in a library: the C
//! representation of enums, bitflags and blessed file descriptor types, and
//! the runtime functions of the blessed error and `PushStr` traits.

use vstd::prelude::*;
use crate::client::ErrorRuntime;
use crate::client_traits::{ClientTrait, ClientTraitMethod};
use crate::schema::{TypeEntryView, TypeKind, TypeKindView, TypeRegistry};
use crate::text::{owned, str_eq};

verus! {

/// The representation of an enum type: what its registry entry aliases.
pub open spec fn enum_repr_spec(reg: Map<Seq<char>, TypeEntryView>, name: Seq<char>) -> Option<Seq<char>> {
    if reg.contains_key(name) {
        match reg[name].kind {
            TypeKindView::Enum(a) => Some(a),
            _ => None,
        }
    } else {
        None
    }
}

/// The representation of a bitflags type.
pub open spec fn bitflags_repr_spec(reg: Map<Seq<char>, TypeEntryView>, name: Seq<char>) -> Option<Seq<char>> {
    if reg.contains_key(name) {
        match reg[name].kind {
            TypeKindView::Bitflags(a) => Some(a),
            _ => None,
        }
    } else {
        None
    }
}

/// The Rust primitive behind a blessed file descriptor type: the type is an
/// alias of a registered primitive.
pub open spec fn fd_repr_spec(reg: Map<Seq<char>, TypeEntryView>, name: Seq<char>) -> Option<Seq<char>> {
    if reg.contains_key(name) {
        match reg[name].kind {
            TypeKindView::Alias(a) => if reg.contains_key(a) && reg[a].kind is Primitive {
                Some(a)
            } else {
                None
            },
            _ => None,
        }
    } else {
        None
    }
}

/// The view of an optional string.
pub open spec fn opt_str(o: Option<String>) -> Option<Seq<char>> {
    match o {
        Some(s) => Some(s@),
        None => None,
    }
}

/// Looks up the representation of an enum type.
pub fn enum_repr(reg: &TypeRegistry, name: &str) -> (r: Option<String>)
    requires
        reg.wf(),
    ensures
        opt_str(r) == enum_repr_spec(reg@, name@),
{
    match reg.get(name) {
        Some(e) => match &e.kind {
            TypeKind::Enum { alias_of } => Some(alias_of.clone()),
            _ => None,
        },
        None => None,
    }
}

/// Looks up the representation of a bitflags type.
pub fn bitflags_repr(reg: &TypeRegistry, name: &str) -> (r: Option<String>)
    requires
        reg.wf(),
    ensures
        opt_str(r) == bitflags_repr_spec(reg@, name@),
{
    match reg.get(name) {
        Some(e) => match &e.kind {
            TypeKind::Bitflags { alias_of } => Some(alias_of.clone()),
            _ => None,
        },
        None => None,
    }
}

/// Looks up the primitive behind a blessed file descriptor type.
pub fn fd_repr(reg: &TypeRegistry, name: &str) -> (r: Option<String>)
    requires
        reg.wf(),
    ensures
        opt_str(r) == fd_repr_spec(reg@, name@),
{
    match reg.get(name) {
        Some(e) => match &e.kind {
            TypeKind::Alias { alias_of } => match reg.get(alias_of.as_str()) {
                Some(leaf) => match &leaf.kind {
                    TypeKind::Primitive { .. } => Some(alias_of.clone()),
                    _ => None,
                },
                None => None,
            },
            _ => None,
        },
        None => None,
    }
}

// ---------------------------------------------------------------------------
// Blessed traits
// ---------------------------------------------------------------------------

/// The first trait with the given name.
pub open spec fn first_trait(traits: Seq<ClientTrait>, name: Seq<char>) -> Option<int>
    decreases traits.len(),
{
    if traits.len() == 0 {
        None
    } else {
        match first_trait(traits.drop_last(), name) {
            Some(i) => Some(i),
            None => if traits.last().name@ == name {
                Some(traits.len() - 1)
            } else {
                None
            },
        }
    }
}

/// The first method with the given name.
pub open spec fn first_method(ms: Seq<ClientTraitMethod>, name: Seq<char>) -> Option<int>
    decreases ms.len(),
{
    if ms.len() == 0 {
        None
    } else {
        match first_method(ms.drop_last(), name) {
            Some(i) => Some(i),
            None => if ms.last().name@ == name {
                Some(ms.len() - 1)
            } else {
                None
            },
        }
    }
}

/// The dispatch function of the method `method` of the first trait named
/// `trait_name`, when that method is in the trait context.
pub open spec fn trait_fn_spec(traits: Seq<ClientTrait>, trait_name: Seq<char>, method: Seq<char>) -> Option<Seq<char>> {
    match first_trait(traits, trait_name) {
        Some(t) => match first_method(traits[t].methods@, method) {
            Some(m) => match traits[t].methods@[m].slot {
                Some(s) => Some(s.ffi_name@),
                None => None,
            },
            None => None,
        },
        None => None,
    }
}

fn find_trait(traits: &[ClientTrait], name: &str) -> (r: Option<usize>)
    ensures
        match r {
            Some(k) => k < traits@.len() && first_trait(traits@, name@) == Some(k as int),
            None => first_trait(traits@, name@) is None,
        },
{
    let mut i: usize = 0;
    assert(traits@.take(0) =~= Seq::<ClientTrait>::empty());
    while i < traits.len()
        invariant
            i <= traits@.len(),
            first_trait(traits@.take(i as int), name@) is None,
        decreases traits@.len() - i,
    {
        assert(traits@.take(i + 1).drop_last() =~= traits@.take(i as int));
        if str_eq(traits[i].name.as_str(), name) {
            proof {
                lemma_first_trait_prefix(traits@, name@, i as int, i as int + 1);
            }
            return Some(i);
        }
        i = i + 1;
    }
    assert(traits@.take(traits@.len() as int) =~= traits@);
    None
}

proof fn lemma_first_trait_prefix(traits: Seq<ClientTrait>, name: Seq<char>, k: int, n: int)
    requires
        0 <= k < n <= traits.len(),
        first_trait(traits.take(n), name) == Some(k),
    ensures
        first_trait(traits, name) == Some(k),
    decreases traits.len() - n,
{
    if n < traits.len() {
        assert(traits.take(n + 1).drop_last() =~= traits.take(n));
        lemma_first_trait_prefix(traits, name, k, n + 1);
    } else {
        assert(traits.take(n) =~= traits);
    }
}

proof fn lemma_first_method_prefix(ms: Seq<ClientTraitMethod>, name: Seq<char>, k: int, n: int)
    requires
        0 <= k < n <= ms.len(),
        first_method(ms.take(n), name) == Some(k),
    ensures
        first_method(ms, name) == Some(k),
    decreases ms.len() - n,
{
    if n < ms.len() {
        assert(ms.take(n + 1).drop_last() =~= ms.take(n));
        lemma_first_method_prefix(ms, name, k, n + 1);
    } else {
        assert(ms.take(n) =~= ms);
    }
}

fn find_method(ms: &Vec<ClientTraitMethod>, name: &str) -> (r: Option<usize>)
    ensures
        match r {
            Some(k) => k < ms@.len() && first_method(ms@, name@) == Some(k as int),
            None => first_method(ms@, name@) is None,
        },
{
    let mut i: usize = 0;
    assert(ms@.take(0) =~= Seq::<ClientTraitMethod>::empty());
    while i < ms.len()
        invariant
            i <= ms@.len(),
            first_method(ms@.take(i as int), name@) is None,
        decreases ms@.len() - i,
    {
        assert(ms@.take(i + 1).drop_last() =~= ms@.take(i as int));
        if str_eq(ms[i].name.as_str(), name) {
            proof {
                lemma_first_method_prefix(ms@, name@, i as int, i as int + 1);
            }
            return Some(i);
        }
        i = i + 1;
    }
    assert(ms@.take(ms@.len() as int) =~= ms@);
    None
}

fn trait_fn(traits: &[ClientTrait], trait_name: &str, method: &str) -> (r: Option<String>)
    ensures
        opt_str(r) == trait_fn_spec(traits@, trait_name@, method@),
{
    match find_trait(traits, trait_name) {
        Some(t) => match find_method(&traits[t].methods, method) {
            Some(m) => match &traits[t].methods[m].slot {
                Some(s) => Some(s.ffi_name.clone()),
                None => None,
            },
            None => None,
        },
        None => None,
    }
}

/// The error trait's `result` dispatch function and its destroy function.
pub open spec fn error_dispatch_spec(traits: Seq<ClientTrait>, error_trait: Seq<char>) -> Option<(Seq<char>, Seq<char>)> {
    match trait_fn_spec(traits, error_trait, "result"@) {
        Some(f) => Some((f, traits[first_trait(traits, error_trait)->0].destroy_ffi_name@)),
        None => None,
    }
}

/// Looks up the error trait's `result` dispatch function and its destroy
/// function.
pub fn find_error_dispatch_fns(traits: &[ClientTrait], error_trait: &str) -> (r: Option<(String, String)>)
    ensures
        match r {
            Some((f, d)) => error_dispatch_spec(traits@, error_trait@) == Some((f@, d@)),
            None => error_dispatch_spec(traits@, error_trait@) is None,
        },
{
    match trait_fn(traits, error_trait, "result") {
        Some(f) => {
            let t = find_trait(traits, error_trait);
            match t {
                Some(k) => Some((f, traits[k].destroy_ffi_name.clone())),
                None => None,
            }
        },
        None => None,
    }
}

/// Looks up the error trait's `message` dispatch function.
pub fn find_error_message_fn(traits: &[ClientTrait], error_trait: &str) -> (r: Option<String>)
    ensures
        opt_str(r) == trait_fn_spec(traits@, error_trait@, "message"@),
{
    trait_fn(traits, error_trait, "message")
}

/// The type tag and vtable struct of the `PushStr` trait.
pub open spec fn push_str_spec(reg: Map<Seq<char>, TypeEntryView>, traits: Seq<ClientTrait>, name: Seq<char>) -> Option<(u32, Seq<char>)> {
    if reg.contains_key(name) && reg[name].type_tag is Some && first_trait(traits, name) is Some {
        Some((reg[name].type_tag->0, traits[first_trait(traits, name)->0].vtable_struct_name@))
    } else {
        None
    }
}

/// Looks up the type tag and vtable struct of the `PushStr` trait.
pub fn find_push_str_trait(reg: &TypeRegistry, traits: &[ClientTrait], name: &str) -> (r: Option<(u32, String)>)
    requires
        reg.wf(),
    ensures
        match r {
            Some((tag, vt)) => push_str_spec(reg@, traits@, name@) == Some((tag, vt@)),
            None => push_str_spec(reg@, traits@, name@) is None,
        },
{
    let tag = match reg.get(name) {
        Some(e) => e.type_tag,
        None => None,
    };
    match tag {
        Some(t) => match find_trait(traits, name) {
            Some(k) => Some((t, traits[k].vtable_struct_name.clone())),
            None => None,
        },
        None => None,
    }
}

/// The runtime of the client's error types, from the blessed error and
/// `PushStr` traits.
pub open spec fn error_runtime_spec(
    prefix: Seq<char>,
    reg: Map<Seq<char>, TypeEntryView>,
    traits: Seq<ClientTrait>,
    error_trait: Seq<char>,
    push_str_trait: Seq<char>,
) -> Option<(Seq<char>, Seq<char>, Seq<char>, u32, Seq<char>)> {
    match (error_dispatch_spec(traits, error_trait), trait_fn_spec(traits, error_trait, "message"@), push_str_spec(reg, traits, push_str_trait)) {
        (Some(d), Some(m), Some(p)) => Some((prefix, d.1, m, p.0, p.1)),
        _ => None,
    }
}

/// The plain-value form of an [`ErrorRuntime`].
pub open spec fn runtime_view(rt: ErrorRuntime) -> (Seq<char>, Seq<char>, Seq<char>, u32, Seq<char>) {
    (rt.prefix@, rt.error_destroy_fn@, rt.error_message_fn@, rt.push_str_type_tag, rt.push_str_vtable_name@)
}

/// Resolves the runtime of the client's error types.
pub fn error_runtime(prefix: &str, reg: &TypeRegistry, traits: &[ClientTrait], error_trait: &str, push_str_trait: &str) -> (r: Option<ErrorRuntime>)
    requires
        reg.wf(),
    ensures
        match r {
            Some(rt) => error_runtime_spec(prefix@, reg@, traits@, error_trait@, push_str_trait@) == Some(runtime_view(rt)),
            None => error_runtime_spec(prefix@, reg@, traits@, error_trait@, push_str_trait@) is None,
        },
{
    let d = find_error_dispatch_fns(traits, error_trait);
    let m = find_error_message_fn(traits, error_trait);
    let p = find_push_str_trait(reg, traits, push_str_trait);
    match (d, m, p) {
        (Some((_, destroy)), Some(msg), Some((tag, vt))) => Some(
            ErrorRuntime {
                prefix: owned(prefix),
                error_destroy_fn: destroy,
                error_message_fn: msg,
                push_str_type_tag: tag,
                push_str_vtable_name: vt,
            },
        ),
        _ => None,
    }
}

} // verus!
