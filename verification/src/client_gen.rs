//! The whole Rust client source of a library: the imports of blessed file
//! descriptor types, the fixed prelude of FFI traits, then each part of the
//! library in turn.

use vstd::prelude::*;
use crate::client::{emit_bitflags_type, emit_enum_type, emit_error, error_text, ClientErrorType, ErrorRuntime};
use crate::client_funcs::{emit_free_function, free_function_text, ClientFreeFunction};
use crate::client_lookup::{
    bitflags_repr, bitflags_repr_spec, enum_repr, enum_repr_spec, error_dispatch_spec, error_runtime, error_runtime_spec,
    fd_repr, fd_repr_spec, find_error_dispatch_fns, runtime_view,
};
use crate::client_method::ClientMethod;
use crate::client_sig::MethodReturn;
use crate::client_traits::{
    emit_error_trait_externs, emit_implementable_trait, emit_trait_impl, error_trait_externs_text, implementable_trait_text,
    trait_impl_text, ClientTrait, ClientTraitImpl,
};
use crate::client_types::{emit_exported_type, exported_type_text, ClientExportedType};
use crate::header::{EnumType, Receiver};
use crate::client::{bitflags_type_text, enum_type_text};
use crate::schema::{Blessing, TypeEntryView, TypeKind, TypeRegistry};
use crate::text::{chars_of, join_spec, join_strings, owned, push_str, str_eq, strings_view};
use crate::typedefs::{lemma_sorted_same_elements, lemma_str_lt_total, lemma_str_lt_transitive, position_of, str_lt};

verus! {

// ---------------------------------------------------------------------------
// Imports
// ---------------------------------------------------------------------------

/// The `std::os::unix::io` symbols that the blessed file descriptor types
/// need: `RawFd` for a raw fd, `AsRawFd`, `BorrowedFd` and `RawFd` for a
/// borrowed one, `FromRawFd`, `OwnedFd` and `RawFd` for an owned one.
pub open spec fn fd_symbols(raw_fd: bool, borrowed_fd: bool, owned_fd: bool) -> Set<Seq<char>> {
    (if raw_fd {
        set!["RawFd"@]
    } else {
        Set::empty()
    }).union(
        if borrowed_fd {
            set!["AsRawFd"@, "BorrowedFd"@, "RawFd"@]
        } else {
            Set::empty()
        },
    ).union(
        if owned_fd {
            set!["FromRawFd"@, "OwnedFd"@, "RawFd"@]
        } else {
            Set::empty()
        },
    )
}

/// Each element sorts before the next.
pub open spec fn strictly_sorted(l: Seq<Seq<char>>) -> bool {
    forall|i: int, j: int| 0 <= i < j < l.len() ==> str_lt(#[trigger] l[i], #[trigger] l[j])
}

/// `l` lists the elements of `s`, each once, in ascending order.
pub open spec fn lists_sorted(l: Seq<Seq<char>>, s: Set<Seq<char>>) -> bool {
    &&& strictly_sorted(l)
    &&& forall|x: Seq<char>| l.contains(x) <==> s.contains(x)
}

/// The symbols to import, in ascending order.
pub open spec fn fd_import_list(raw_fd: bool, borrowed_fd: bool, owned_fd: bool) -> Seq<Seq<char>> {
    choose|l: Seq<Seq<char>>| lists_sorted(l, fd_symbols(raw_fd, borrowed_fd, owned_fd))
}

/// The import of those symbols, none when there are none.
pub open spec fn fd_imports_text(l: Seq<Seq<char>>) -> Seq<char> {
    if l.len() == 0 {
        Seq::empty()
    } else {
        "use std::os::unix::io::{"@ + join_spec(l, ", "@) + "};\n"@ + "\n"@
    }
}

/// Adds a name to a strictly sorted list, unless it is there already.
fn insert_sorted(names: &mut Vec<String>, n: &str)
    requires
        strictly_sorted(strings_view(old(names)@)),
    ensures
        strictly_sorted(strings_view(final(names)@)),
        forall|x: Seq<char>| strings_view(final(names)@).contains(x) <==> (strings_view(old(names)@).contains(x) || x == n@),
{
    let ghost v0 = strings_view(names@);
    let nc = chars_of(n);
    let p = position_of(names, nc.as_slice());
    if p < names.len() && str_eq(names[p].as_str(), n) {
        assert(v0[p as int] == n@);
        return;
    }
    proof {
        if p < v0.len() {
            assert(v0[p as int] != n@);
            lemma_str_lt_total(v0[p as int], n@);
            assert(str_lt(n@, v0[p as int]));
            assert forall|k: int| p <= k < v0.len() implies str_lt(n@, #[trigger] v0[k]) by {
                if k > p {
                    lemma_str_lt_transitive(n@, v0[p as int], v0[k]);
                }
            }
        }
    }
    names.insert(p, owned(n));
    let ghost v1 = strings_view(names@);
    assert(v1 =~= v0.insert(p as int, n@));
    assert forall|i: int, j: int| 0 <= i < j < v1.len() implies str_lt(#[trigger] v1[i], #[trigger] v1[j]) by {
        if j < p {
            assert(v1[i] == v0[i] && v1[j] == v0[j]);
        } else if j == p {
            assert(v1[i] == v0[i]);
        } else if i < p {
            assert(v1[i] == v0[i] && v1[j] == v0[j - 1]);
            assert(str_lt(v0[i], n@));
            lemma_str_lt_transitive(v0[i], n@, v0[j - 1]);
        } else if i == p {
            assert(v1[j] == v0[j - 1]);
        } else {
            assert(v1[i] == v0[i - 1] && v1[j] == v0[j - 1]);
        }
    }
    assert forall|x: Seq<char>| v1.contains(x) <==> (v0.contains(x) || x == n@) by {
        if v1.contains(x) {
            let k = choose|k: int| 0 <= k < v1.len() && v1[k] == x;
            if k < p {
                assert(v0[k] == x);
            } else if k > p {
                assert(v0[k - 1] == x);
            }
        }
        if v0.contains(x) {
            let k = choose|k: int| 0 <= k < v0.len() && v0[k] == x;
            if k < p {
                assert(v1[k] == x);
            } else {
                assert(v1[k + 1] == x);
            }
        }
        if x == n@ {
            assert(v1[p as int] == x);
        }
    }
}

/// The symbols to import: each one that the blessed file descriptor types
/// need, once, in ascending order.
pub fn fd_import_symbols(raw_fd: bool, borrowed_fd: bool, owned_fd: bool) -> (r: Vec<String>)
    ensures
        lists_sorted(strings_view(r@), fd_symbols(raw_fd, borrowed_fd, owned_fd)),
        strings_view(r@) == fd_import_list(raw_fd, borrowed_fd, owned_fd),
{
    let mut v: Vec<String> = Vec::new();
    assert(strictly_sorted(strings_view(v@)));
    if raw_fd {
        insert_sorted(&mut v, "RawFd");
    }
    if borrowed_fd {
        insert_sorted(&mut v, "AsRawFd");
        insert_sorted(&mut v, "BorrowedFd");
        insert_sorted(&mut v, "RawFd");
    }
    if owned_fd {
        insert_sorted(&mut v, "FromRawFd");
        insert_sorted(&mut v, "OwnedFd");
        insert_sorted(&mut v, "RawFd");
    }
    let ghost l = strings_view(v@);
    let ghost s = fd_symbols(raw_fd, borrowed_fd, owned_fd);
    assert forall|x: Seq<char>| l.contains(x) <==> s.contains(x) by {
        assert(!Seq::<Seq<char>>::empty().contains(x));
    }
    assert(lists_sorted(l, s));
    let ghost c = fd_import_list(raw_fd, borrowed_fd, owned_fd);
    assert(lists_sorted(c, s));
    proof {
        lemma_sorted_same_elements(l, c);
    }
    v
}


fn fd_imports(raw_fd: bool, borrowed_fd: bool, owned_fd: bool) -> (r: String)
    ensures
        r@ == fd_imports_text(fd_import_list(raw_fd, borrowed_fd, owned_fd)),
{
    let syms = fd_import_symbols(raw_fd, borrowed_fd, owned_fd);
    if syms.len() == 0 {
        return String::new();
    }
    let mut s = owned("use std::os::unix::io::{");
    push_str(&mut s, join_strings(syms.as_slice(), ", ").as_str());
    push_str(&mut s, "};\n");
    push_str(&mut s, "\n");
    s
}

// ---------------------------------------------------------------------------
// Fixed text
// ---------------------------------------------------------------------------

/// The traits and the `FfiType` impls of primitives, strings and byte slices that every client starts with.
pub open spec fn prelude_text() -> Seq<char> {
    "/// Marker trait for types exported as opaque C handles.\n"@
        + "pub trait FfiHandle {\n"@
        + "    const C_HANDLE_NAME: &'static str;\n"@
        + "    const TYPE_TAG: u32;\n"@
        + "    unsafe fn as_handle(&self) -> *mut core::ffi::c_void;\n"@
        + "}\n"@
        + "\n"@
        + "/// Maps Rust types to C-compatible representations.\n"@
        + "pub trait FfiType {\n"@
        + "    type CRepr;\n"@
        + "    const C_TYPE_NAME: &'static str;\n"@
        + "    const IS_HANDLE: bool = false;\n"@
        + "    fn into_c(self) -> Self::CRepr;\n"@
        + "    unsafe fn from_c(repr: Self::CRepr) -> Self;\n"@
        + "    fn borrow_as_c(&self) -> Self::CRepr;\n"@
        + "}\n"@
        + "\n"@
        + "macro_rules! impl_ffi_identity {\n"@
        + "    ($($t:ty => $n:expr),* $(,)?) => { $(\n"@
        + "        impl FfiType for $t {\n"@
        + "            type CRepr = $t; const C_TYPE_NAME: &'static str = $n; const IS_HANDLE: bool = false;\n"@
        + "            fn into_c(self) -> Self { self } unsafe fn from_c(r: Self) -> Self { r } fn borrow_as_c(&self) -> Self { *self }\n"@
        + "        }\n"@
        + "    )* };\n"@
        + "}\n"@
        + "impl_ffi_identity! {\n"@
        + "    i8 => \"int8_t\", i16 => \"int16_t\", i32 => \"int32_t\", i64 => \"int64_t\",\n"@
        + "    u8 => \"uint8_t\", u16 => \"uint16_t\", u32 => \"uint32_t\", u64 => \"uint64_t\",\n"@
        + "    isize => \"ssize_t\", usize => \"size_t\", bool => \"bool\",\n"@
        + "}\n"@
        + "\n"@
        + "impl FfiType for &str {\n"@
        + "    type CRepr = ffier::FfierBytes; const C_TYPE_NAME: &'static str = \"FfierStr\"; const IS_HANDLE: bool = false;\n"@
        + "    fn into_c(self) -> ffier::FfierBytes { unsafe { ffier::FfierBytes::from_str(self) } }\n"@
        + "    unsafe fn from_c(repr: ffier::FfierBytes) -> Self { unsafe { let b = core::slice::from_raw_parts(repr.data, repr.len); core::str::from_utf8_unchecked(b) } }\n"@
        + "    fn borrow_as_c(&self) -> ffier::FfierBytes { unsafe { ffier::FfierBytes::from_str(self) } }\n"@
        + "}\n"@
        + "\n"@
        + "impl<'a> FfiType for Option<&'a str> {\n"@
        + "    type CRepr = ffier::FfierBytes; const C_TYPE_NAME: &'static str = \"FfierStr\"; const IS_HANDLE: bool = false;\n"@
        + "    fn into_c(self) -> ffier::FfierBytes { match self { Some(s) => unsafe { ffier::FfierBytes::from_str(s) }, None => ffier::FfierBytes::EMPTY } }\n"@
        + "    unsafe fn from_c(repr: ffier::FfierBytes) -> Self { if repr.data.is_null() { None } else { unsafe { Some(core::str::from_utf8_unchecked(core::slice::from_raw_parts(repr.data, repr.len))) } } }\n"@
        + "    fn borrow_as_c(&self) -> ffier::FfierBytes { match self { Some(s) => unsafe { ffier::FfierBytes::from_str(s) }, None => ffier::FfierBytes::EMPTY } }\n"@
        + "}\n"@
        + "\n"@
        + "impl FfiType for Box<str> {\n"@
        + "    type CRepr = ffier::FfierBytes; const C_TYPE_NAME: &'static str = \"FfierStr\"; const IS_HANDLE: bool = false;\n"@
        + "    fn into_c(self) -> ffier::FfierBytes { let leaked: &mut str = Box::leak(self); ffier::FfierBytes { data: leaked.as_mut_ptr() as *const u8, len: leaked.len() } }\n"@
        + "    unsafe fn from_c(repr: ffier::FfierBytes) -> Self { unsafe { let slice = core::slice::from_raw_parts_mut(repr.data as *mut u8, repr.len); Box::from_raw(core::str::from_utf8_unchecked_mut(slice)) } }\n"@
        + "    fn borrow_as_c(&self) -> ffier::FfierBytes { ffier::FfierBytes { data: self.as_ptr(), len: self.len() } }\n"@
        + "}\n"@
        + "\n"@
        + "impl FfiType for &[u8] {\n"@
        + "    type CRepr = ffier::FfierBytes; const C_TYPE_NAME: &'static str = \"FfierBytes\"; const IS_HANDLE: bool = false;\n"@
        + "    fn into_c(self) -> ffier::FfierBytes { unsafe { ffier::FfierBytes::from_bytes(self) } }\n"@
        + "    unsafe fn from_c(repr: ffier::FfierBytes) -> Self { unsafe { if repr.data.is_null() { &[] } else { core::slice::from_raw_parts(repr.data, repr.len) } } }\n"@
        + "    fn borrow_as_c(&self) -> ffier::FfierBytes { unsafe { ffier::FfierBytes::from_bytes(self) } }\n"@
        + "}\n"@
        + "\n"@
}

fn prelude() -> (r: String)
    ensures
        r@ == prelude_text(),
{
    let mut s = owned("/// Marker trait for types exported as opaque C handles.\n");
    push_str(&mut s, "pub trait FfiHandle {\n");
    push_str(&mut s, "    const C_HANDLE_NAME: &'static str;\n");
    push_str(&mut s, "    const TYPE_TAG: u32;\n");
    push_str(&mut s, "    unsafe fn as_handle(&self) -> *mut core::ffi::c_void;\n");
    push_str(&mut s, "}\n");
    push_str(&mut s, "\n");
    push_str(&mut s, "/// Maps Rust types to C-compatible representations.\n");
    push_str(&mut s, "pub trait FfiType {\n");
    push_str(&mut s, "    type CRepr;\n");
    push_str(&mut s, "    const C_TYPE_NAME: &'static str;\n");
    push_str(&mut s, "    const IS_HANDLE: bool = false;\n");
    push_str(&mut s, "    fn into_c(self) -> Self::CRepr;\n");
    push_str(&mut s, "    unsafe fn from_c(repr: Self::CRepr) -> Self;\n");
    push_str(&mut s, "    fn borrow_as_c(&self) -> Self::CRepr;\n");
    push_str(&mut s, "}\n");
    push_str(&mut s, "\n");
    push_str(&mut s, "macro_rules! impl_ffi_identity {\n");
    push_str(&mut s, "    ($($t:ty => $n:expr),* $(,)?) => { $(\n");
    push_str(&mut s, "        impl FfiType for $t {\n");
    push_str(&mut s, "            type CRepr = $t; const C_TYPE_NAME: &'static str = $n; const IS_HANDLE: bool = false;\n");
    push_str(&mut s, "            fn into_c(self) -> Self { self } unsafe fn from_c(r: Self) -> Self { r } fn borrow_as_c(&self) -> Self { *self }\n");
    push_str(&mut s, "        }\n");
    push_str(&mut s, "    )* };\n");
    push_str(&mut s, "}\n");
    push_str(&mut s, "impl_ffi_identity! {\n");
    push_str(&mut s, "    i8 => \"int8_t\", i16 => \"int16_t\", i32 => \"int32_t\", i64 => \"int64_t\",\n");
    push_str(&mut s, "    u8 => \"uint8_t\", u16 => \"uint16_t\", u32 => \"uint32_t\", u64 => \"uint64_t\",\n");
    push_str(&mut s, "    isize => \"ssize_t\", usize => \"size_t\", bool => \"bool\",\n");
    push_str(&mut s, "}\n");
    push_str(&mut s, "\n");
    push_str(&mut s, "impl FfiType for &str {\n");
    push_str(&mut s, "    type CRepr = ffier::FfierBytes; const C_TYPE_NAME: &'static str = \"FfierStr\"; const IS_HANDLE: bool = false;\n");
    push_str(&mut s, "    fn into_c(self) -> ffier::FfierBytes { unsafe { ffier::FfierBytes::from_str(self) } }\n");
    push_str(&mut s, "    unsafe fn from_c(repr: ffier::FfierBytes) -> Self { unsafe { let b = core::slice::from_raw_parts(repr.data, repr.len); core::str::from_utf8_unchecked(b) } }\n");
    push_str(&mut s, "    fn borrow_as_c(&self) -> ffier::FfierBytes { unsafe { ffier::FfierBytes::from_str(self) } }\n");
    push_str(&mut s, "}\n");
    push_str(&mut s, "\n");
    push_str(&mut s, "impl<'a> FfiType for Option<&'a str> {\n");
    push_str(&mut s, "    type CRepr = ffier::FfierBytes; const C_TYPE_NAME: &'static str = \"FfierStr\"; const IS_HANDLE: bool = false;\n");
    push_str(&mut s, "    fn into_c(self) -> ffier::FfierBytes { match self { Some(s) => unsafe { ffier::FfierBytes::from_str(s) }, None => ffier::FfierBytes::EMPTY } }\n");
    push_str(&mut s, "    unsafe fn from_c(repr: ffier::FfierBytes) -> Self { if repr.data.is_null() { None } else { unsafe { Some(core::str::from_utf8_unchecked(core::slice::from_raw_parts(repr.data, repr.len))) } } }\n");
    push_str(&mut s, "    fn borrow_as_c(&self) -> ffier::FfierBytes { match self { Some(s) => unsafe { ffier::FfierBytes::from_str(s) }, None => ffier::FfierBytes::EMPTY } }\n");
    push_str(&mut s, "}\n");
    push_str(&mut s, "\n");
    push_str(&mut s, "impl FfiType for Box<str> {\n");
    push_str(&mut s, "    type CRepr = ffier::FfierBytes; const C_TYPE_NAME: &'static str = \"FfierStr\"; const IS_HANDLE: bool = false;\n");
    push_str(&mut s, "    fn into_c(self) -> ffier::FfierBytes { let leaked: &mut str = Box::leak(self); ffier::FfierBytes { data: leaked.as_mut_ptr() as *const u8, len: leaked.len() } }\n");
    push_str(&mut s, "    unsafe fn from_c(repr: ffier::FfierBytes) -> Self { unsafe { let slice = core::slice::from_raw_parts_mut(repr.data as *mut u8, repr.len); Box::from_raw(core::str::from_utf8_unchecked_mut(slice)) } }\n");
    push_str(&mut s, "    fn borrow_as_c(&self) -> ffier::FfierBytes { ffier::FfierBytes { data: self.as_ptr(), len: self.len() } }\n");
    push_str(&mut s, "}\n");
    push_str(&mut s, "\n");
    push_str(&mut s, "impl FfiType for &[u8] {\n");
    push_str(&mut s, "    type CRepr = ffier::FfierBytes; const C_TYPE_NAME: &'static str = \"FfierBytes\"; const IS_HANDLE: bool = false;\n");
    push_str(&mut s, "    fn into_c(self) -> ffier::FfierBytes { unsafe { ffier::FfierBytes::from_bytes(self) } }\n");
    push_str(&mut s, "    unsafe fn from_c(repr: ffier::FfierBytes) -> Self { unsafe { if repr.data.is_null() { &[] } else { core::slice::from_raw_parts(repr.data, repr.len) } } }\n");
    push_str(&mut s, "    fn borrow_as_c(&self) -> ffier::FfierBytes { unsafe { ffier::FfierBytes::from_bytes(self) } }\n");
    push_str(&mut s, "}\n");
    push_str(&mut s, "\n");
    s
}

/// `FfiType` for references to handle types.
pub open spec fn handle_ref_impls_text() -> Seq<char> {
    "impl<T: FfiHandle + 'static> FfiType for &T {\n"@
        + "    type CRepr = *mut core::ffi::c_void; const C_TYPE_NAME: &'static str = T::C_HANDLE_NAME; const IS_HANDLE: bool = true;\n"@
        + "    fn into_c(self) -> *mut core::ffi::c_void { unsafe { self.as_handle() } }\n"@
        + "    unsafe fn from_c(_: *mut core::ffi::c_void) -> Self { unimplemented!(\"client-side &T from_c\") }\n"@
        + "    fn borrow_as_c(&self) -> *mut core::ffi::c_void { unsafe { self.as_handle() } }\n"@
        + "}\n"@
        + "impl<T: FfiHandle + 'static> FfiType for &mut T {\n"@
        + "    type CRepr = *mut core::ffi::c_void; const C_TYPE_NAME: &'static str = T::C_HANDLE_NAME; const IS_HANDLE: bool = true;\n"@
        + "    fn into_c(self) -> *mut core::ffi::c_void { unsafe { self.as_handle() } }\n"@
        + "    unsafe fn from_c(_: *mut core::ffi::c_void) -> Self { unimplemented!(\"client-side &mut T from_c\") }\n"@
        + "    fn borrow_as_c(&self) -> *mut core::ffi::c_void { unsafe { self.as_handle() } }\n"@
        + "}\n"@
        + "\n"@
}

fn handle_ref_impls() -> (r: String)
    ensures
        r@ == handle_ref_impls_text(),
{
    let mut s = owned("impl<T: FfiHandle + 'static> FfiType for &T {\n");
    push_str(&mut s, "    type CRepr = *mut core::ffi::c_void; const C_TYPE_NAME: &'static str = T::C_HANDLE_NAME; const IS_HANDLE: bool = true;\n");
    push_str(&mut s, "    fn into_c(self) -> *mut core::ffi::c_void { unsafe { self.as_handle() } }\n");
    push_str(&mut s, "    unsafe fn from_c(_: *mut core::ffi::c_void) -> Self { unimplemented!(\"client-side &T from_c\") }\n");
    push_str(&mut s, "    fn borrow_as_c(&self) -> *mut core::ffi::c_void { unsafe { self.as_handle() } }\n");
    push_str(&mut s, "}\n");
    push_str(&mut s, "impl<T: FfiHandle + 'static> FfiType for &mut T {\n");
    push_str(&mut s, "    type CRepr = *mut core::ffi::c_void; const C_TYPE_NAME: &'static str = T::C_HANDLE_NAME; const IS_HANDLE: bool = true;\n");
    push_str(&mut s, "    fn into_c(self) -> *mut core::ffi::c_void { unsafe { self.as_handle() } }\n");
    push_str(&mut s, "    unsafe fn from_c(_: *mut core::ffi::c_void) -> Self { unimplemented!(\"client-side &mut T from_c\") }\n");
    push_str(&mut s, "    fn borrow_as_c(&self) -> *mut core::ffi::c_void { unsafe { self.as_handle() } }\n");
    push_str(&mut s, "}\n");
    push_str(&mut s, "\n");
    s
}

/// `FfiType` for `OwnedFd`, with the given C representation.
pub open spec fn owned_fd_impl_text(repr: Seq<char>) -> Seq<char> {
    "impl FfiType for OwnedFd {\n"@
        + "    type CRepr = "@
        + repr
        + "; const C_TYPE_NAME: &'static str = \"int\"; const IS_HANDLE: bool = false;\n"@
        + "    fn into_c(self) -> "@
        + repr
        + " { use std::os::unix::io::IntoRawFd; self.into_raw_fd() as "@
        + repr
        + " }\n"@
        + "    unsafe fn from_c(fd: "@
        + repr
        + ") -> Self { unsafe { OwnedFd::from_raw_fd(fd as _) } }\n"@
        + "    fn borrow_as_c(&self) -> "@
        + repr
        + " { self.as_raw_fd() as "@
        + repr
        + " }\n"@
        + "}\n"@
        + "\n"@
}

fn owned_fd_impl(repr: &str) -> (r: String)
    ensures
        r@ == owned_fd_impl_text(repr@),
{
    let mut s = owned("impl FfiType for OwnedFd {\n");
    push_str(&mut s, "    type CRepr = ");
    push_str(&mut s, repr);
    push_str(&mut s, "; const C_TYPE_NAME: &'static str = \"int\"; const IS_HANDLE: bool = false;\n");
    push_str(&mut s, "    fn into_c(self) -> ");
    push_str(&mut s, repr);
    push_str(&mut s, " { use std::os::unix::io::IntoRawFd; self.into_raw_fd() as ");
    push_str(&mut s, repr);
    push_str(&mut s, " }\n");
    push_str(&mut s, "    unsafe fn from_c(fd: ");
    push_str(&mut s, repr);
    push_str(&mut s, ") -> Self { unsafe { OwnedFd::from_raw_fd(fd as _) } }\n");
    push_str(&mut s, "    fn borrow_as_c(&self) -> ");
    push_str(&mut s, repr);
    push_str(&mut s, " { self.as_raw_fd() as ");
    push_str(&mut s, repr);
    push_str(&mut s, " }\n");
    push_str(&mut s, "}\n");
    push_str(&mut s, "\n");
    s
}

/// `FfiType` for `BorrowedFd` and `Option<BorrowedFd>`, with the given C representation.
pub open spec fn borrowed_fd_impls_text(repr: Seq<char>) -> Seq<char> {
    "impl<'fd> FfiType for BorrowedFd<'fd> {\n"@
        + "    type CRepr = "@
        + repr
        + "; const C_TYPE_NAME: &'static str = \"int\"; const IS_HANDLE: bool = false;\n"@
        + "    fn into_c(self) -> "@
        + repr
        + " { self.as_raw_fd() as "@
        + repr
        + " }\n"@
        + "    unsafe fn from_c(fd: "@
        + repr
        + ") -> Self { unsafe { BorrowedFd::borrow_raw(fd as _) } }\n"@
        + "    fn borrow_as_c(&self) -> "@
        + repr
        + " { self.as_raw_fd() as "@
        + repr
        + " }\n"@
        + "}\n"@
        + "\n"@
        + "impl<'fd> FfiType for Option<BorrowedFd<'fd>> {\n"@
        + "    type CRepr = "@
        + repr
        + "; const C_TYPE_NAME: &'static str = \"int\"; const IS_HANDLE: bool = false;\n"@
        + "    fn into_c(self) -> "@
        + repr
        + " { match self { Some(fd) => fd.as_raw_fd() as "@
        + repr
        + ", None => -1 } }\n"@
        + "    unsafe fn from_c(fd: "@
        + repr
        + ") -> Self { if fd < 0 { None } else { Some(unsafe { BorrowedFd::borrow_raw(fd as _) }) } }\n"@
        + "    fn borrow_as_c(&self) -> "@
        + repr
        + " { match self { Some(fd) => fd.as_raw_fd() as "@
        + repr
        + ", None => -1 } }\n"@
        + "}\n"@
        + "\n"@
}

fn borrowed_fd_impls(repr: &str) -> (r: String)
    ensures
        r@ == borrowed_fd_impls_text(repr@),
{
    let mut s = owned("impl<'fd> FfiType for BorrowedFd<'fd> {\n");
    push_str(&mut s, "    type CRepr = ");
    push_str(&mut s, repr);
    push_str(&mut s, "; const C_TYPE_NAME: &'static str = \"int\"; const IS_HANDLE: bool = false;\n");
    push_str(&mut s, "    fn into_c(self) -> ");
    push_str(&mut s, repr);
    push_str(&mut s, " { self.as_raw_fd() as ");
    push_str(&mut s, repr);
    push_str(&mut s, " }\n");
    push_str(&mut s, "    unsafe fn from_c(fd: ");
    push_str(&mut s, repr);
    push_str(&mut s, ") -> Self { unsafe { BorrowedFd::borrow_raw(fd as _) } }\n");
    push_str(&mut s, "    fn borrow_as_c(&self) -> ");
    push_str(&mut s, repr);
    push_str(&mut s, " { self.as_raw_fd() as ");
    push_str(&mut s, repr);
    push_str(&mut s, " }\n");
    push_str(&mut s, "}\n");
    push_str(&mut s, "\n");
    push_str(&mut s, "impl<'fd> FfiType for Option<BorrowedFd<'fd>> {\n");
    push_str(&mut s, "    type CRepr = ");
    push_str(&mut s, repr);
    push_str(&mut s, "; const C_TYPE_NAME: &'static str = \"int\"; const IS_HANDLE: bool = false;\n");
    push_str(&mut s, "    fn into_c(self) -> ");
    push_str(&mut s, repr);
    push_str(&mut s, " { match self { Some(fd) => fd.as_raw_fd() as ");
    push_str(&mut s, repr);
    push_str(&mut s, ", None => -1 } }\n");
    push_str(&mut s, "    unsafe fn from_c(fd: ");
    push_str(&mut s, repr);
    push_str(&mut s, ") -> Self { if fd < 0 { None } else { Some(unsafe { BorrowedFd::borrow_raw(fd as _) }) } }\n");
    push_str(&mut s, "    fn borrow_as_c(&self) -> ");
    push_str(&mut s, repr);
    push_str(&mut s, " { match self { Some(fd) => fd.as_raw_fd() as ");
    push_str(&mut s, repr);
    push_str(&mut s, ", None => -1 } }\n");
    push_str(&mut s, "}\n");
    push_str(&mut s, "\n");
    s
}

// ---------------------------------------------------------------------------
// The library
// ---------------------------------------------------------------------------

/// A library as the Rust client generator sees it.
pub struct ClientLibrary {
    pub prefix: String,
    pub registry: TypeRegistry,
    /// The types blessed as a raw, a borrowed and an owned file descriptor.
    pub raw_fd: Option<String>,
    pub borrowed_fd: Option<String>,
    pub owned_fd: Option<String>,
    /// The traits blessed as the error trait and as `PushStr`.
    pub error_trait: Option<String>,
    pub push_str_trait: Option<String>,
    pub enums: Vec<EnumType>,
    pub bitflags: Vec<EnumType>,
    pub errors: Vec<ClientErrorType>,
    pub exported_types: Vec<ClientExportedType>,
    pub traits: Vec<ClientTrait>,
    pub trait_impls: Vec<ClientTraitImpl>,
    pub free_functions: Vec<ClientFreeFunction>,
}

/// What a lookup of the type blessed with `b` may give: some type blessed
/// so, or nothing when no type is.
pub open spec fn blessed_lookup(m: Map<Seq<char>, TypeEntryView>, b: Blessing, o: Option<String>) -> bool {
    match o {
        Some(n) => m.contains_key(n@) && m[n@].bless == Some(b),
        None => forall|k: Seq<char>| #[trigger] m.contains_key(k) ==> m[k].bless != Some(b),
    }
}

impl ClientLibrary {
    /// A library for the client generator, with the file descriptor types,
    /// the error trait and the `PushStr` trait found by their blessings in
    /// the registry.
    pub fn new(
        prefix: String,
        registry: TypeRegistry,
        enums: Vec<EnumType>,
        bitflags: Vec<EnumType>,
        errors: Vec<ClientErrorType>,
        exported_types: Vec<ClientExportedType>,
        traits: Vec<ClientTrait>,
        trait_impls: Vec<ClientTraitImpl>,
        free_functions: Vec<ClientFreeFunction>,
    ) -> (r: ClientLibrary)
        requires
            registry.wf(),
        ensures
            r.prefix == prefix,
            r.registry == registry,
            blessed_lookup(registry@, Blessing::RawFd, r.raw_fd),
            blessed_lookup(registry@, Blessing::BorrowedFd, r.borrowed_fd),
            blessed_lookup(registry@, Blessing::OwnedFd, r.owned_fd),
            blessed_lookup(registry@, Blessing::ErrorTrait, r.error_trait),
            blessed_lookup(registry@, Blessing::PushStr, r.push_str_trait),
            r.enums == enums,
            r.bitflags == bitflags,
            r.errors == errors,
            r.exported_types == exported_types,
            r.traits == traits,
            r.trait_impls == trait_impls,
            r.free_functions == free_functions,
    {
        let raw_fd = registry.blessed(Blessing::RawFd);
        let borrowed_fd = registry.blessed(Blessing::BorrowedFd);
        let owned_fd = registry.blessed(Blessing::OwnedFd);
        let error_trait = registry.blessed(Blessing::ErrorTrait);
        let push_str_trait = registry.blessed(Blessing::PushStr);
        ClientLibrary {
            prefix,
            registry,
            raw_fd,
            borrowed_fd,
            owned_fd,
            error_trait,
            push_str_trait,
            enums,
            bitflags,
            errors,
            exported_types,
            traits,
            trait_impls,
            free_functions,
        }
    }
}

/// The error trait's `result` dispatch function, if there is one.
pub open spec fn error_result_fn_spec(lib: ClientLibrary) -> Option<Seq<char>> {
    match lib.error_trait {
        Some(e) => match error_dispatch_spec(lib.traits@, e@) {
            Some(d) => Some(d.0),
            None => None,
        },
        None => None,
    }
}

/// The same, empty when there is none.
pub open spec fn erf_text(lib: ClientLibrary) -> Seq<char> {
    match error_result_fn_spec(lib) {
        Some(f) => f,
        None => Seq::empty(),
    }
}

/// The runtime of the client's error types, if it resolves.
pub open spec fn runtime_spec(lib: ClientLibrary) -> Option<(Seq<char>, Seq<char>, Seq<char>, u32, Seq<char>)> {
    match (lib.error_trait, lib.push_str_trait) {
        (Some(e), Some(p)) => error_runtime_spec(lib.prefix@, lib.registry@, lib.traits@, e@, p@),
        _ => None,
    }
}

/// A runtime with the resolved names.
pub open spec fn chosen_runtime(lib: ClientLibrary) -> ErrorRuntime {
    choose|rt: ErrorRuntime| runtime_spec(lib) == Some(runtime_view(rt))
}

/// A method whose wrapper calls the error trait's `result` function: one
/// returning a handle (NULL on error) that is not a builder step.
pub open spec fn method_needs_erf(m: ClientMethod) -> bool {
    &&& m.ffi_name is Some
    &&& m.ret matches MethodReturn::Result { ok: Some(_), handle_or_null: true, .. }
    &&& !(m.is_builder && (m.receiver == Receiver::Value || m.receiver == Receiver::Mut))
}

/// A free function that calls the error trait's `result` function.
pub open spec fn free_needs_erf(f: ClientFreeFunction) -> bool {
    f.ret matches MethodReturn::Result { ok: Some(_), handle_or_null: true, .. }
}

/// Some generated code calls the error trait's `result` function.
pub open spec fn needs_erf(lib: ClientLibrary) -> bool {
    ||| exists|i: int, j: int|
        0 <= i < lib.exported_types@.len() && 0 <= j < lib.exported_types@[i].methods@.len() && method_needs_erf(
            #[trigger] lib.exported_types@[i].methods@[j],
        )
    ||| exists|i: int| 0 <= i < lib.free_functions@.len() && free_needs_erf(#[trigger] lib.free_functions@[i])
}

/// What the generator looks up resolves: enum and bitflags
/// representations, blessed file descriptor types, the error runtime when
/// there are errors, and the error trait's `result` function when code
/// calls it; and every vtable fits the machine.
pub open spec fn generate_ready(lib: ClientLibrary) -> bool {
    let reg = lib.registry@;
    &&& forall|i: int| 0 <= i < lib.traits@.len() ==> (#[trigger] lib.traits@[i]).max_vtable_slot < usize::MAX
    &&& forall|i: int| 0 <= i < lib.enums@.len() ==> enum_repr_spec(reg, (#[trigger] lib.enums@[i]).name@) is Some
    &&& forall|i: int| 0 <= i < lib.bitflags@.len() ==> bitflags_repr_spec(reg, (#[trigger] lib.bitflags@[i]).name@) is Some
    &&& (lib.owned_fd matches Some(n) ==> fd_repr_spec(reg, n@) is Some)
    &&& (lib.borrowed_fd matches Some(n) ==> fd_repr_spec(reg, n@) is Some)
    &&& (lib.errors@.len() > 0 ==> runtime_spec(lib) is Some)
    &&& (needs_erf(lib) ==> error_result_fn_spec(lib) is Some)
}

/// The `FfiType` impls of the blessed file descriptor types.
pub open spec fn fd_impls_text(lib: ClientLibrary) -> Seq<char> {
    (match lib.owned_fd {
        Some(n) => owned_fd_impl_text(fd_repr_spec(lib.registry@, n@)->0),
        None => Seq::<char>::empty(),
    }) + match lib.borrowed_fd {
        Some(n) => borrowed_fd_impls_text(fd_repr_spec(lib.registry@, n@)->0),
        None => Seq::<char>::empty(),
    }
}

/// The enums, in order.
pub open spec fn enums_text(es: Seq<EnumType>, reg: Map<Seq<char>, TypeEntryView>) -> Seq<char>
    decreases es.len(),
{
    if es.len() == 0 {
        Seq::empty()
    } else {
        enums_text(es.drop_last(), reg) + enum_type_text(es.last(), enum_repr_spec(reg, es.last().name@)->0)
    }
}

/// The bitflags, in order.
pub open spec fn bitflags_text(es: Seq<EnumType>, reg: Map<Seq<char>, TypeEntryView>) -> Seq<char>
    decreases es.len(),
{
    if es.len() == 0 {
        Seq::empty()
    } else {
        bitflags_text(es.drop_last(), reg) + bitflags_type_text(es.last(), bitflags_repr_spec(reg, es.last().name@)->0)
    }
}

/// The error types, in order.
pub open spec fn errors_text(es: Seq<ClientErrorType>, rt: ErrorRuntime) -> Seq<char>
    decreases es.len(),
{
    if es.len() == 0 {
        Seq::empty()
    } else {
        errors_text(es.drop_last(), rt) + error_text(es.last(), rt)
    }
}

/// The exported types, in order.
pub open spec fn exported_types_text(ts: Seq<ClientExportedType>, erf: Seq<char>) -> Seq<char>
    decreases ts.len(),
{
    if ts.len() == 0 {
        Seq::empty()
    } else {
        exported_types_text(ts.drop_last(), erf) + exported_type_text(ts.last(), erf)
    }
}

/// The trait is blessed as the error trait in the registry.
pub open spec fn is_error_trait(reg: Map<Seq<char>, TypeEntryView>, name: Seq<char>) -> bool {
    reg.contains_key(name) && reg[name].bless == Some(Blessing::ErrorTrait)
}

/// The traits, in order: only the externs of the error trait, the full
/// source of the others.
pub open spec fn traits_text(ts: Seq<ClientTrait>, reg: Map<Seq<char>, TypeEntryView>) -> Seq<char>
    decreases ts.len(),
{
    if ts.len() == 0 {
        Seq::empty()
    } else {
        traits_text(ts.drop_last(), reg) + if is_error_trait(reg, ts.last().name@) {
            error_trait_externs_text(ts.last())
        } else {
            implementable_trait_text(ts.last(), reg)
        }
    }
}

/// The names of the traits, in order.
pub open spec fn trait_names(ts: Seq<ClientTrait>) -> Seq<Seq<char>> {
    ts.map_values(|t: ClientTrait| t.name@)
}

/// The struct of a trait impl is an exported handle type.
pub open spec fn is_handle(reg: Map<Seq<char>, TypeEntryView>, name: Seq<char>) -> bool {
    reg.contains_key(name) && reg[name].kind is Handle
}

/// The trait impls' text after the first `n` impls and the traits then
/// defined, from the traits defined before them.
pub open spec fn impls_state(
    tis: Seq<ClientTraitImpl>,
    n: nat,
    defined: Seq<Seq<char>>,
    traits: Seq<ClientTrait>,
    reg: Map<Seq<char>, TypeEntryView>,
) -> (Seq<char>, Seq<Seq<char>>)
    decreases n,
{
    if n == 0 {
        (Seq::empty(), defined)
    } else {
        let (t, d) = impls_state(tis, (n - 1) as nat, defined, traits, reg);
        let ti = tis[n - 1];
        if is_handle(reg, ti.struct_name@) {
            (
                t + trait_impl_text(ti, d, traits),
                if d.contains(ti.trait_name@) {
                    d
                } else {
                    d.push(ti.trait_name@)
                },
            )
        } else {
            (t, d)
        }
    }
}

/// Trait impls never define a trait twice: along the impls, the list of
/// defined traits keeps every earlier name, stays free of duplicates, and
/// holds the trait of every impl handled so far (its definition is written
/// exactly when its name joins the list).
pub proof fn lemma_traits_defined_once(
    tis: Seq<ClientTraitImpl>,
    n: nat,
    defined: Seq<Seq<char>>,
    traits: Seq<ClientTrait>,
    reg: Map<Seq<char>, TypeEntryView>,
)
    requires
        n <= tis.len(),
        defined.no_duplicates(),
    ensures
        impls_state(tis, n, defined, traits, reg).1.no_duplicates(),
        impls_state(tis, n, defined, traits, reg).1.len() >= defined.len(),
        impls_state(tis, n, defined, traits, reg).1.take(defined.len() as int) == defined,
        forall|i: int|
            0 <= i < n && is_handle(reg, (#[trigger] tis[i]).struct_name@) ==> impls_state(tis, n, defined, traits, reg).1.contains(
                tis[i].trait_name@,
            ),
    decreases n,
{
    if n > 0 {
        lemma_traits_defined_once(tis, (n - 1) as nat, defined, traits, reg);
        let d = impls_state(tis, (n - 1) as nat, defined, traits, reg).1;
        let dn = impls_state(tis, n, defined, traits, reg).1;
        let ti = tis[n - 1];
        if is_handle(reg, ti.struct_name@) && !d.contains(ti.trait_name@) {
            assert(dn == d.push(ti.trait_name@));
            assert(dn.no_duplicates()) by {
                assert forall|i: int, j: int| 0 <= i < dn.len() && 0 <= j < dn.len() && i != j implies dn[i] != dn[j] by {
                    if i == d.len() as int && dn[i] == dn[j] {
                        assert(d[j] == ti.trait_name@);
                        assert(d.contains(ti.trait_name@));
                    } else if j == d.len() as int && dn[i] == dn[j] {
                        assert(d[i] == ti.trait_name@);
                        assert(d.contains(ti.trait_name@));
                    }
                }
            }
            assert(dn.take(defined.len() as int) =~= d.take(defined.len() as int));
            assert(dn[d.len() as int] == ti.trait_name@);
            assert forall|i: int|
                0 <= i < n && is_handle(reg, (#[trigger] tis[i]).struct_name@) implies dn.contains(tis[i].trait_name@) by {
                if i < n - 1 {
                    let k = choose|k: int| 0 <= k < d.len() && d[k] == tis[i].trait_name@;
                    assert(dn[k] == d[k]);
                }
            }
        } else {
            assert(dn == d);
        }
    }
}

/// The free functions, in order.
pub open spec fn free_functions_text(fs: Seq<ClientFreeFunction>, erf: Seq<char>) -> Seq<char>
    decreases fs.len(),
{
    if fs.len() == 0 {
        Seq::empty()
    } else {
        free_functions_text(fs.drop_last(), erf) + free_function_text(fs.last(), erf)
    }
}

/// The whole client source: imports, prelude, the file descriptor and
/// handle reference impls, then enums, bitflags, errors, exported types,
/// traits, trait impls of handle types (defining the traits met only
/// there), and free functions.
pub open spec fn client_source_text(lib: ClientLibrary) -> Seq<char> {
    let reg = lib.registry@;
    fd_imports_text(fd_import_list(lib.raw_fd is Some, lib.borrowed_fd is Some, lib.owned_fd is Some)) + prelude_text()
        + fd_impls_text(lib) + handle_ref_impls_text() + enums_text(lib.enums@, reg) + bitflags_text(lib.bitflags@, reg)
        + errors_text(lib.errors@, chosen_runtime(lib)) + exported_types_text(lib.exported_types@, erf_text(lib))
        + traits_text(lib.traits@, reg) + impls_state(
        lib.trait_impls@,
        lib.trait_impls@.len(),
        trait_names(lib.traits@),
        lib.traits@,
        reg,
    ).0 + free_functions_text(lib.free_functions@, erf_text(lib))
}

// ---------------------------------------------------------------------------
// Generating
// ---------------------------------------------------------------------------

fn emit_blessed_fd_impls(lib: &ClientLibrary) -> (r: String)
    requires
        lib.registry.wf(),
        generate_ready(*lib),
    ensures
        r@ == fd_impls_text(*lib),
{
    let mut s = String::new();
    match &lib.owned_fd {
        Some(n) => match fd_repr(&lib.registry, n.as_str()) {
            Some(repr) => push_str(&mut s, owned_fd_impl(repr.as_str()).as_str()),
            None => {},
        },
        None => {},
    }
    let ghost s1 = s@;
    match &lib.borrowed_fd {
        Some(n) => match fd_repr(&lib.registry, n.as_str()) {
            Some(repr) => push_str(&mut s, borrowed_fd_impls(repr.as_str()).as_str()),
            None => {},
        },
        None => {},
    }
    assert(s@ =~= fd_impls_text(*lib));
    s
}

fn enums_section(es: &Vec<EnumType>, reg: &TypeRegistry) -> (r: String)
    requires
        reg.wf(),
        forall|i: int| 0 <= i < es@.len() ==> enum_repr_spec(reg@, (#[trigger] es@[i]).name@) is Some,
    ensures
        r@ == enums_text(es@, reg@),
{
    let mut s = String::new();
    let mut i: usize = 0;
    assert(es@.take(0) =~= Seq::<EnumType>::empty());
    while i < es.len()
        invariant
            i <= es@.len(),
            reg.wf(),
            forall|k: int| 0 <= k < es@.len() ==> enum_repr_spec(reg@, (#[trigger] es@[k]).name@) is Some,
            s@ == enums_text(es@.take(i as int), reg@),
        decreases es@.len() - i,
    {
        assert(enum_repr_spec(reg@, es@[i as int].name@) is Some);
        match enum_repr(reg, es[i].name.as_str()) {
            Some(repr) => emit_enum_type(&mut s, &es[i], repr.as_str()),
            None => {},
        }
        i = i + 1;
        assert(es@.take(i as int).drop_last() =~= es@.take(i - 1));
    }
    assert(es@.take(es@.len() as int) =~= es@);
    s
}

fn bitflags_section(es: &Vec<EnumType>, reg: &TypeRegistry) -> (r: String)
    requires
        reg.wf(),
        forall|i: int| 0 <= i < es@.len() ==> bitflags_repr_spec(reg@, (#[trigger] es@[i]).name@) is Some,
    ensures
        r@ == bitflags_text(es@, reg@),
{
    let mut s = String::new();
    let mut i: usize = 0;
    assert(es@.take(0) =~= Seq::<EnumType>::empty());
    while i < es.len()
        invariant
            i <= es@.len(),
            reg.wf(),
            forall|k: int| 0 <= k < es@.len() ==> bitflags_repr_spec(reg@, (#[trigger] es@[k]).name@) is Some,
            s@ == bitflags_text(es@.take(i as int), reg@),
        decreases es@.len() - i,
    {
        assert(bitflags_repr_spec(reg@, es@[i as int].name@) is Some);
        match bitflags_repr(reg, es[i].name.as_str()) {
            Some(repr) => emit_bitflags_type(&mut s, &es[i], repr.as_str()),
            None => {},
        }
        i = i + 1;
        assert(es@.take(i as int).drop_last() =~= es@.take(i - 1));
    }
    assert(es@.take(es@.len() as int) =~= es@);
    s
}

fn errors_section(es: &Vec<ClientErrorType>, rt: &ErrorRuntime) -> (r: String)
    ensures
        r@ == errors_text(es@, *rt),
{
    let mut s = String::new();
    let mut i: usize = 0;
    assert(es@.take(0) =~= Seq::<ClientErrorType>::empty());
    while i < es.len()
        invariant
            i <= es@.len(),
            s@ == errors_text(es@.take(i as int), *rt),
        decreases es@.len() - i,
    {
        emit_error(&mut s, &es[i], rt);
        i = i + 1;
        assert(es@.take(i as int).drop_last() =~= es@.take(i - 1));
    }
    assert(es@.take(es@.len() as int) =~= es@);
    s
}

proof fn lemma_errors_text_view(es: Seq<ClientErrorType>, a: ErrorRuntime, b: ErrorRuntime)
    requires
        runtime_view(a) == runtime_view(b),
    ensures
        errors_text(es, a) == errors_text(es, b),
    decreases es.len(),
{
    if es.len() > 0 {
        lemma_errors_text_view(es.drop_last(), a, b);
        reveal(error_text);
        assert(error_text(es.last(), a) == error_text(es.last(), b));
    }
}

fn errors_part(lib: &ClientLibrary) -> (r: String)
    requires
        lib.registry.wf(),
        generate_ready(*lib),
    ensures
        r@ == errors_text(lib.errors@, chosen_runtime(*lib)),
{
    if lib.errors.len() == 0 {
        return String::new();
    }
    match (&lib.error_trait, &lib.push_str_trait) {
        (Some(e), Some(p)) => match error_runtime(lib.prefix.as_str(), &lib.registry, lib.traits.as_slice(), e.as_str(), p.as_str()) {
            Some(rt) => {
                let s = errors_section(&lib.errors, &rt);
                proof {
                    assert(runtime_spec(*lib) == Some(runtime_view(rt)));
                    let c = chosen_runtime(*lib);
                    assert(runtime_spec(*lib) == Some(runtime_view(c)));
                    lemma_errors_text_view(lib.errors@, rt, c);
                }
                s
            },
            None => String::new(),
        },
        _ => String::new(),
    }
}

fn erf_string(lib: &ClientLibrary) -> (r: String)
    ensures
        r@ == erf_text(*lib),
{
    match &lib.error_trait {
        Some(e) => match find_error_dispatch_fns(lib.traits.as_slice(), e.as_str()) {
            Some((f, _)) => f,
            None => String::new(),
        },
        None => String::new(),
    }
}

fn exported_section(ts: &Vec<ClientExportedType>, erf: &str) -> (r: String)
    ensures
        r@ == exported_types_text(ts@, erf@),
{
    let mut s = String::new();
    let mut i: usize = 0;
    assert(ts@.take(0) =~= Seq::<ClientExportedType>::empty());
    while i < ts.len()
        invariant
            i <= ts@.len(),
            s@ == exported_types_text(ts@.take(i as int), erf@),
        decreases ts@.len() - i,
    {
        emit_exported_type(&mut s, &ts[i], erf);
        i = i + 1;
        assert(ts@.take(i as int).drop_last() =~= ts@.take(i - 1));
    }
    assert(ts@.take(ts@.len() as int) =~= ts@);
    s
}

fn error_trait_check(reg: &TypeRegistry, name: &str) -> (r: bool)
    requires
        reg.wf(),
    ensures
        r == is_error_trait(reg@, name@),
{
    match reg.get(name) {
        Some(e) => match e.bless {
            Some(Blessing::ErrorTrait) => true,
            _ => false,
        },
        None => false,
    }
}

fn traits_section(ts: &Vec<ClientTrait>, reg: &TypeRegistry) -> (r: String)
    requires
        reg.wf(),
        forall|i: int| 0 <= i < ts@.len() ==> (#[trigger] ts@[i]).max_vtable_slot < usize::MAX,
    ensures
        r@ == traits_text(ts@, reg@),
{
    let mut s = String::new();
    let mut i: usize = 0;
    assert(ts@.take(0) =~= Seq::<ClientTrait>::empty());
    while i < ts.len()
        invariant
            i <= ts@.len(),
            reg.wf(),
            forall|k: int| 0 <= k < ts@.len() ==> (#[trigger] ts@[k]).max_vtable_slot < usize::MAX,
            s@ == traits_text(ts@.take(i as int), reg@),
        decreases ts@.len() - i,
    {
        assert(ts@[i as int].max_vtable_slot < usize::MAX);
        if error_trait_check(reg, ts[i].name.as_str()) {
            emit_error_trait_externs(&mut s, &ts[i]);
        } else {
            emit_implementable_trait(&mut s, &ts[i], reg);
        }
        i = i + 1;
        assert(ts@.take(i as int).drop_last() =~= ts@.take(i - 1));
    }
    assert(ts@.take(ts@.len() as int) =~= ts@);
    s
}

fn trait_name_list(ts: &Vec<ClientTrait>) -> (r: Vec<String>)
    ensures
        strings_view(r@) == trait_names(ts@),
{
    let mut v: Vec<String> = Vec::new();
    let mut i: usize = 0;
    while i < ts.len()
        invariant
            i <= ts@.len(),
            strings_view(v@) == trait_names(ts@).take(i as int),
        decreases ts@.len() - i,
    {
        let ghost before = strings_view(v@);
        let n = ts[i].name.clone();
        let ghost nv = n@;
        v.push(n);
        assert(strings_view(v@) =~= before.push(nv));
        i = i + 1;
        assert(strings_view(v@) =~= trait_names(ts@).take(i as int));
    }
    assert(trait_names(ts@).take(ts@.len() as int) =~= trait_names(ts@));
    v
}

fn handle_check(reg: &TypeRegistry, name: &str) -> (r: bool)
    requires
        reg.wf(),
    ensures
        r == is_handle(reg@, name@),
{
    match reg.get(name) {
        Some(e) => match &e.kind {
            TypeKind::Handle { .. } => true,
            _ => false,
        },
        None => false,
    }
}

fn impls_section(tis: &Vec<ClientTraitImpl>, defined: Vec<String>, traits: &Vec<ClientTrait>, reg: &TypeRegistry) -> (r: String)
    requires
        reg.wf(),
    ensures
        r@ == impls_state(tis@, tis@.len(), strings_view(defined@), traits@, reg@).0,
{
    let ghost d0 = strings_view(defined@);
    let mut defined = defined;
    let mut s = String::new();
    let mut i: usize = 0;
    while i < tis.len()
        invariant
            i <= tis@.len(),
            reg.wf(),
            (s@, strings_view(defined@)) == impls_state(tis@, i as nat, d0, traits@, reg@),
        decreases tis@.len() - i,
    {
        if handle_check(reg, tis[i].struct_name.as_str()) {
            emit_trait_impl(&mut s, &tis[i], &mut defined, traits.as_slice());
        }
        i = i + 1;
    }
    s
}

fn free_section(fs: &Vec<ClientFreeFunction>, erf: &str) -> (r: String)
    ensures
        r@ == free_functions_text(fs@, erf@),
{
    let mut s = String::new();
    let mut i: usize = 0;
    assert(fs@.take(0) =~= Seq::<ClientFreeFunction>::empty());
    while i < fs.len()
        invariant
            i <= fs@.len(),
            s@ == free_functions_text(fs@.take(i as int), erf@),
        decreases fs@.len() - i,
    {
        emit_free_function(&mut s, &fs[i], erf);
        i = i + 1;
        assert(fs@.take(i as int).drop_last() =~= fs@.take(i - 1));
    }
    assert(fs@.take(fs@.len() as int) =~= fs@);
    s
}

/// Generates the whole Rust client source of a library.
pub fn generate(lib: &ClientLibrary) -> (r: String)
    requires
        lib.registry.wf(),
        generate_ready(*lib),
    ensures
        r@ == client_source_text(*lib),
{
    let reg = &lib.registry;
    let mut out = fd_imports(lib.raw_fd.is_some(), lib.borrowed_fd.is_some(), lib.owned_fd.is_some());
    push_str(&mut out, prelude().as_str());
    push_str(&mut out, emit_blessed_fd_impls(lib).as_str());
    push_str(&mut out, handle_ref_impls().as_str());
    push_str(&mut out, enums_section(&lib.enums, reg).as_str());
    push_str(&mut out, bitflags_section(&lib.bitflags, reg).as_str());
    push_str(&mut out, errors_part(lib).as_str());
    let erf = erf_string(lib);
    push_str(&mut out, exported_section(&lib.exported_types, erf.as_str()).as_str());
    push_str(&mut out, traits_section(&lib.traits, reg).as_str());
    let defined = trait_name_list(&lib.traits);
    push_str(&mut out, impls_section(&lib.trait_impls, defined, &lib.traits, reg).as_str());
    push_str(&mut out, free_section(&lib.free_functions, erf.as_str()).as_str());
    out
}

// ---------------------------------------------------------------------------
// Readiness
// ---------------------------------------------------------------------------

fn method_calls_erf(m: &ClientMethod) -> (r: bool)
    ensures
        r == method_needs_erf(*m),
{
    let hon = match &m.ret {
        MethodReturn::Result { ok: Some(_), handle_or_null: true, .. } => true,
        _ => false,
    };
    m.ffi_name.is_some() && hon && !(m.is_builder && (m.receiver == Receiver::Value || m.receiver == Receiver::Mut))
}

fn any_needs_erf(lib: &ClientLibrary) -> (r: bool)
    ensures
        r == needs_erf(*lib),
{
    let ts = &lib.exported_types;
    let mut i: usize = 0;
    while i < ts.len()
        invariant
            i <= ts@.len(),
            ts == &lib.exported_types,
            forall|a: int, b: int| 0 <= a < i && 0 <= b < ts@[a].methods@.len() ==> !method_needs_erf(#[trigger] ts@[a].methods@[b]),
        decreases ts@.len() - i,
    {
        let ms = &ts[i].methods;
        let mut j: usize = 0;
        while j < ms.len()
            invariant
                ts == &lib.exported_types,
                i < ts@.len(),
                j <= ms@.len(),
                ms == &ts@[i as int].methods,
                forall|b: int| 0 <= b < j ==> !method_needs_erf(#[trigger] ms@[b]),
            decreases ms@.len() - j,
        {
            if method_calls_erf(&ms[j]) {
                assert(method_needs_erf(lib.exported_types@[i as int].methods@[j as int]));
                return true;
            }
            j = j + 1;
        }
        i = i + 1;
    }
    let fs = &lib.free_functions;
    let mut k: usize = 0;
    while k < fs.len()
        invariant
            k <= fs@.len(),
            fs == &lib.free_functions,
            forall|c: int| 0 <= c < k ==> !free_needs_erf(#[trigger] fs@[c]),
        decreases fs@.len() - k,
    {
        let hon = match &fs[k].ret {
            MethodReturn::Result { ok: Some(_), handle_or_null: true, .. } => true,
            _ => false,
        };
        if hon {
            assert(free_needs_erf(lib.free_functions@[k as int]));
            return true;
        }
        k = k + 1;
    }
    false
}

/// Whether what the generator looks up in a library resolves.
pub fn generate_inputs_ready(lib: &ClientLibrary) -> (r: bool)
    requires
        lib.registry.wf(),
    ensures
        r == generate_ready(*lib),
{
    let reg = &lib.registry;
    let mut i: usize = 0;
    while i < lib.traits.len()
        invariant
            i <= lib.traits@.len(),
            forall|k: int| 0 <= k < i ==> (#[trigger] lib.traits@[k]).max_vtable_slot < usize::MAX,
        decreases lib.traits@.len() - i,
    {
        if lib.traits[i].max_vtable_slot == usize::MAX {
            return false;
        }
        i = i + 1;
    }
    let mut i: usize = 0;
    while i < lib.enums.len()
        invariant
            i <= lib.enums@.len(),
            reg == &lib.registry,
            reg.wf(),
            forall|k: int| 0 <= k < i ==> enum_repr_spec(reg@, (#[trigger] lib.enums@[k]).name@) is Some,
        decreases lib.enums@.len() - i,
    {
        if enum_repr(reg, lib.enums[i].name.as_str()).is_none() {
            return false;
        }
        i = i + 1;
    }
    let mut i: usize = 0;
    while i < lib.bitflags.len()
        invariant
            i <= lib.bitflags@.len(),
            reg == &lib.registry,
            reg.wf(),
            forall|k: int| 0 <= k < i ==> bitflags_repr_spec(reg@, (#[trigger] lib.bitflags@[k]).name@) is Some,
        decreases lib.bitflags@.len() - i,
    {
        if bitflags_repr(reg, lib.bitflags[i].name.as_str()).is_none() {
            return false;
        }
        i = i + 1;
    }
    match &lib.owned_fd {
        Some(n) => if fd_repr(reg, n.as_str()).is_none() {
            return false;
        },
        None => {},
    }
    match &lib.borrowed_fd {
        Some(n) => if fd_repr(reg, n.as_str()).is_none() {
            return false;
        },
        None => {},
    }
    if lib.errors.len() > 0 {
        let ok = match (&lib.error_trait, &lib.push_str_trait) {
            (Some(e), Some(p)) => error_runtime(lib.prefix.as_str(), reg, lib.traits.as_slice(), e.as_str(), p.as_str()).is_some(),
            _ => false,
        };
        if !ok {
            return false;
        }
    }
    if any_needs_erf(lib) {
        let ok = match &lib.error_trait {
            Some(e) => find_error_dispatch_fns(lib.traits.as_slice(), e.as_str()).is_some(),
            None => false,
        };
        if !ok {
            return false;
        }
    }
    true
}

/// Generates the client source when what the generator looks up resolves,
/// `None` otherwise.
pub fn try_generate(lib: &ClientLibrary) -> (r: Option<String>)
    requires
        lib.registry.wf(),
    ensures
        match r {
            Some(s) => generate_ready(*lib) && s@ == client_source_text(*lib),
            None => !generate_ready(*lib),
        },
{
    if generate_inputs_ready(lib) {
        Some(generate(lib))
    } else {
        None
    }
}

} // verus!
