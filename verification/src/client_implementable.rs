//! The client side of a trait implementable from C, for Rust code that
//! links the library: the trait, whose default `__into_raw_handle` builds a
//! static vtable of trampolines around the implementing value; the `repr(C)`
//! vtable struct; the constructor's declaration; and the wrapper around the
//! handle it returns. Also the client side of a trait impl of an exported
//! type: the trait (when not defined yet), the methods' C declarations, and
//! the impl that calls them on the handle.

use vstd::prelude::*;
use crate::text::{chars_of, join_spec, join_strings, owned, push_str, slice_range, string_of, strings_view, trim, trim_spec};

verus! {

/// How a vtable method's parameter is passed.
pub enum VtableParamType {
    /// A primitive, by value (its Rust type as text).
    Primitive(String),
    Str,
    Bytes,
    Path,
    /// A handle of the given type (as text).
    Handle(String),
}

/// What a vtable method returns.
pub enum VtableRetType {
    Void,
    Primitive(String),
    Str,
    Bytes,
    Path,
    Handle(String),
}

/// A parameter of a vtable method.
pub struct VtableParam {
    pub name: String,
    pub ty: VtableParamType,
}

/// A method of an implementable trait, in vtable order.
pub struct VtableMethodMeta {
    pub name: String,
    pub params: Vec<VtableParam>,
    pub ret: VtableRetType,
}

/// A field of the vtable struct that the user declared.
pub struct VtableFieldMeta {
    pub name: String,
    /// Its type, as text.
    pub field_type: String,
}

/// An implementable trait, as its client sees it.
pub struct ImplementableClientMeta {
    pub trait_name: String,
    /// The vtable struct's path, as text.
    pub vtable_struct_path: String,
    /// The wrapper type's path, as text.
    pub wrapper_path: String,
    /// The name of the C constructor of a handle around a vtable.
    pub constructor_name: String,
    pub vtable_fields: Vec<VtableFieldMeta>,
    pub vtable_methods: Vec<VtableMethodMeta>,
}

// ---------------------------------------------------------------------------
// The last segment of a path
// ---------------------------------------------------------------------------

/// Where the last piece of `s` starts when `s` is split at each `::`, from
/// left to right, scanning from `i` with the current piece starting at
/// `start`.
pub open spec fn seg_start(s: Seq<char>, i: int, start: int) -> int
    decreases s.len() - i,
{
    if i < 0 || i + 1 >= s.len() {
        start
    } else if s[i] == ':' && s[i + 1] == ':' {
        seg_start(s, i + 2, i + 2)
    } else {
        seg_start(s, i + 1, start)
    }
}

/// The last piece of a path split at `::`, without surrounding whitespace.
pub open spec fn last_segment(s: Seq<char>) -> Seq<char> {
    trim_spec(s.subrange(seg_start(s, 0, 0), s.len() as int))
}

/// The last piece of a path split at `::`, trimmed: `VtableFruit` for
/// `$crate :: VtableFruit`.
pub fn last_segment_of(p: &str) -> (r: String)
    ensures
        r@ == last_segment(p@),
{
    let v = chars_of(p);
    let mut i: usize = 0;
    let mut start: usize = 0;
    while v.len() - i >= 2
        invariant
            v@ == p@,
            start <= v@.len(),
            i <= v@.len(),
            seg_start(p@, i as int, start as int) == seg_start(p@, 0, 0),
        decreases v@.len() - i,
    {
        if v[i] == ':' && v[i + 1] == ':' {
            i = i + 2;
            start = i;
        } else {
            i = i + 1;
        }
    }
    let rest = slice_range(v.as_slice(), start, v.len());
    string_of(trim(rest.as_slice()).as_slice())
}

// ---------------------------------------------------------------------------
// Types and conversions
// ---------------------------------------------------------------------------

/// The Rust type of a parameter in the trait.
pub open spec fn param_rust_type(t: VtableParamType) -> Seq<char> {
    match t {
        VtableParamType::Primitive(ty) => ty@,
        VtableParamType::Str => "&str"@,
        VtableParamType::Bytes => "&[u8]"@,
        VtableParamType::Path => "&std::path::Path"@,
        VtableParamType::Handle(ty) => "&"@ + ty@,
    }
}

/// The return annotation of a method in the trait.
pub open spec fn ret_rust_type(r: VtableRetType) -> Seq<char> {
    match r {
        VtableRetType::Void => Seq::empty(),
        VtableRetType::Primitive(ty) => " -> "@ + ty@,
        VtableRetType::Str => " -> &str"@,
        VtableRetType::Bytes => " -> &[u8]"@,
        VtableRetType::Path => " -> &std::path::Path"@,
        VtableRetType::Handle(ty) => " -> "@ + ty@,
    }
}

/// The C type of a parameter in the vtable.
pub open spec fn param_c_type(t: VtableParamType) -> Seq<char> {
    match t {
        VtableParamType::Primitive(ty) => ty@,
        VtableParamType::Handle(_) => "*mut core::ffi::c_void"@,
        _ => "ffier::FfierBytes"@,
    }
}

/// The C return annotation of a method in the vtable.
pub open spec fn ret_c_type(r: VtableRetType) -> Seq<char> {
    match r {
        VtableRetType::Void => Seq::empty(),
        VtableRetType::Primitive(ty) => " -> "@ + ty@,
        VtableRetType::Handle(_) => " -> *mut core::ffi::c_void"@,
        _ => " -> ffier::FfierBytes"@,
    }
}

/// The argument a trampoline passes for a C parameter.
pub open spec fn arg_conversion(p: VtableParam) -> Seq<char> {
    match p.ty {
        VtableParamType::Str => "unsafe { "@ + p.name@ + ".as_str_unchecked() }"@,
        VtableParamType::Bytes => "unsafe { "@ + p.name@ + ".as_bytes() }"@,
        VtableParamType::Path => "unsafe { "@ + p.name@ + ".as_path() }"@,
        _ => p.name@,
    }
}

/// What a trampoline returns for the method's result.
pub open spec fn ret_conversion(r: VtableRetType) -> Seq<char> {
    match r {
        VtableRetType::Str => "unsafe { ffier::FfierBytes::from_str(__result) }"@,
        VtableRetType::Bytes => "unsafe { ffier::FfierBytes::from_bytes(__result) }"@,
        VtableRetType::Path => "unsafe { ffier::FfierBytes::from_path(__result) }"@,
        _ => "__result"@,
    }
}

fn param_rust_type_of(t: &VtableParamType) -> (r: String)
    ensures
        r@ == param_rust_type(*t),
{
    match t {
        VtableParamType::Primitive(ty) => owned(ty.as_str()),
        VtableParamType::Str => owned("&str"),
        VtableParamType::Bytes => owned("&[u8]"),
        VtableParamType::Path => owned("&std::path::Path"),
        VtableParamType::Handle(ty) => {
            let mut s = owned("&");
            push_str(&mut s, ty.as_str());
            s
        },
    }
}

fn ret_rust_type_of(r: &VtableRetType) -> (out: String)
    ensures
        out@ == ret_rust_type(*r),
{
    match r {
        VtableRetType::Void => String::new(),
        VtableRetType::Primitive(ty) => {
            let mut s = owned(" -> ");
            push_str(&mut s, ty.as_str());
            s
        },
        VtableRetType::Str => owned(" -> &str"),
        VtableRetType::Bytes => owned(" -> &[u8]"),
        VtableRetType::Path => owned(" -> &std::path::Path"),
        VtableRetType::Handle(ty) => {
            let mut s = owned(" -> ");
            push_str(&mut s, ty.as_str());
            s
        },
    }
}

fn param_c_type_of(t: &VtableParamType) -> (r: String)
    ensures
        r@ == param_c_type(*t),
{
    match t {
        VtableParamType::Primitive(ty) => owned(ty.as_str()),
        VtableParamType::Handle(_) => owned("*mut core::ffi::c_void"),
        _ => owned("ffier::FfierBytes"),
    }
}

fn ret_c_type_of(r: &VtableRetType) -> (out: String)
    ensures
        out@ == ret_c_type(*r),
{
    match r {
        VtableRetType::Void => String::new(),
        VtableRetType::Primitive(ty) => {
            let mut s = owned(" -> ");
            push_str(&mut s, ty.as_str());
            s
        },
        VtableRetType::Handle(_) => owned(" -> *mut core::ffi::c_void"),
        _ => owned(" -> ffier::FfierBytes"),
    }
}

fn arg_conversion_of(p: &VtableParam) -> (r: String)
    ensures
        r@ == arg_conversion(*p),
{
    match &p.ty {
        VtableParamType::Str => {
            let mut s = owned("unsafe { ");
            push_str(&mut s, p.name.as_str());
            push_str(&mut s, ".as_str_unchecked() }");
            s
        },
        VtableParamType::Bytes => {
            let mut s = owned("unsafe { ");
            push_str(&mut s, p.name.as_str());
            push_str(&mut s, ".as_bytes() }");
            s
        },
        VtableParamType::Path => {
            let mut s = owned("unsafe { ");
            push_str(&mut s, p.name.as_str());
            push_str(&mut s, ".as_path() }");
            s
        },
        _ => owned(p.name.as_str()),
    }
}

fn ret_conversion_of(r: &VtableRetType) -> (out: String)
    ensures
        out@ == ret_conversion(*r),
{
    match r {
        VtableRetType::Str => owned("unsafe { ffier::FfierBytes::from_str(__result) }"),
        VtableRetType::Bytes => owned("unsafe { ffier::FfierBytes::from_bytes(__result) }"),
        VtableRetType::Path => owned("unsafe { ffier::FfierBytes::from_path(__result) }"),
        _ => owned("__result"),
    }
}

/// The argument passed to the C function for a parameter.
pub open spec fn call_arg(p: VtableParam) -> Seq<char> {
    match p.ty {
        VtableParamType::Str => "unsafe { ffier::FfierBytes::from_str("@ + p.name@ + ") }"@,
        VtableParamType::Bytes => "unsafe { ffier::FfierBytes::from_bytes("@ + p.name@ + ") }"@,
        VtableParamType::Path => "unsafe { ffier::FfierBytes::from_path("@ + p.name@ + ") }"@,
        _ => p.name@,
    }
}

/// The Rust value made of what the C function returned (`__raw`).
pub open spec fn raw_conversion(r: VtableRetType) -> Seq<char> {
    match r {
        VtableRetType::Str => "unsafe { core::str::from_utf8_unchecked(core::slice::from_raw_parts(__raw.data, __raw.len)) }"@,
        VtableRetType::Bytes => "unsafe { core::slice::from_raw_parts(__raw.data, __raw.len) }"@,
        VtableRetType::Path => "unsafe { __raw.as_path() }"@,
        _ => "__raw"@,
    }
}

fn call_arg_of(p: &VtableParam) -> (r: String)
    ensures
        r@ == call_arg(*p),
{
    match &p.ty {
        VtableParamType::Str => {
            let mut s = owned("unsafe { ffier::FfierBytes::from_str(");
            push_str(&mut s, p.name.as_str());
            push_str(&mut s, ") }");
            s
        },
        VtableParamType::Bytes => {
            let mut s = owned("unsafe { ffier::FfierBytes::from_bytes(");
            push_str(&mut s, p.name.as_str());
            push_str(&mut s, ") }");
            s
        },
        VtableParamType::Path => {
            let mut s = owned("unsafe { ffier::FfierBytes::from_path(");
            push_str(&mut s, p.name.as_str());
            push_str(&mut s, ") }");
            s
        },
        _ => owned(p.name.as_str()),
    }
}

fn raw_conversion_of(r: &VtableRetType) -> (out: String)
    ensures
        out@ == raw_conversion(*r),
{
    match r {
        VtableRetType::Str => owned("unsafe { core::str::from_utf8_unchecked(core::slice::from_raw_parts(__raw.data, __raw.len)) }"),
        VtableRetType::Bytes => owned("unsafe { core::slice::from_raw_parts(__raw.data, __raw.len) }"),
        VtableRetType::Path => owned("unsafe { __raw.as_path() }"),
        _ => owned("__raw"),
    }
}

// ---------------------------------------------------------------------------
// Lists of parameters
// ---------------------------------------------------------------------------

/// The kinds of list written from a method's parameters.
pub enum ParamList {
    /// `name: RustType`, as in the trait.
    RustDecl,
    /// `name: CType`, as in a trampoline.
    CDecl,
    /// `CType`, as in the vtable's function pointer.
    CType,
    /// The converted argument, as in the trampoline's call.
    Arg,
    /// The argument converted to its C form, as in a call of the C
    /// function.
    CallArg,
}

/// One item of a parameter list.
pub open spec fn list_item(k: ParamList, p: VtableParam) -> Seq<char> {
    match k {
        ParamList::RustDecl => p.name@ + ": "@ + param_rust_type(p.ty),
        ParamList::CDecl => p.name@ + ": "@ + param_c_type(p.ty),
        ParamList::CType => param_c_type(p.ty),
        ParamList::Arg => arg_conversion(p),
        ParamList::CallArg => call_arg(p),
    }
}

/// The items of a parameter list, after the given leading items.
pub open spec fn list_items(lead: Seq<Seq<char>>, k: ParamList, ps: Seq<VtableParam>) -> Seq<Seq<char>> {
    lead + ps.map_values(|p: VtableParam| list_item(k, p))
}

fn list_item_of(k: &ParamList, p: &VtableParam) -> (r: String)
    ensures
        r@ == list_item(*k, *p),
{
    match k {
        ParamList::RustDecl => {
            let mut s = owned(p.name.as_str());
            push_str(&mut s, ": ");
            push_str(&mut s, param_rust_type_of(&p.ty).as_str());
            s
        },
        ParamList::CDecl => {
            let mut s = owned(p.name.as_str());
            push_str(&mut s, ": ");
            push_str(&mut s, param_c_type_of(&p.ty).as_str());
            s
        },
        ParamList::CType => param_c_type_of(&p.ty),
        ParamList::Arg => arg_conversion_of(p),
        ParamList::CallArg => call_arg_of(p),
    }
}

/// The list, joined by `, `.
fn joined_list(lead: Vec<String>, k: &ParamList, ps: &Vec<VtableParam>) -> (r: String)
    ensures
        r@ == join_spec(list_items(strings_view(lead@), *k, ps@), ", "@),
{
    let ghost want = list_items(strings_view(lead@), *k, ps@);
    let ghost n0 = lead@.len();
    let mut items = lead;
    let mut i: usize = 0;
    assert(strings_view(items@) =~= want.take(n0 as int));
    while i < ps.len()
        invariant
            i <= ps@.len(),
            want.len() == n0 + ps@.len(),
            forall|j: int| 0 <= j < ps@.len() ==> #[trigger] want[n0 + j] == list_item(*k, ps@[j]),
            items@.len() == n0 + i,
            strings_view(items@) == want.take(n0 + i),
        decreases ps@.len() - i,
    {
        let ghost before = items@;
        let it = list_item_of(k, &ps[i]);
        items.push(it);
        assert(want[n0 + i] == list_item(*k, ps@[i as int]));
        i = i + 1;
        assert(strings_view(items@) =~= want.take(n0 + i));
    }
    assert(want.take((n0 + ps@.len()) as int) =~= want);
    join_strings(items.as_slice(), ", ")
}

fn joined_after(lead: &str, k: &ParamList, ps: &Vec<VtableParam>) -> (r: String)
    ensures
        r@ == join_spec(list_items(seq![lead@], *k, ps@), ", "@),
{
    let mut v: Vec<String> = Vec::new();
    v.push(owned(lead));
    assert(strings_view(v@) =~= seq![lead@]);
    joined_list(v, k, ps)
}

fn joined_alone(k: &ParamList, ps: &Vec<VtableParam>) -> (r: String)
    ensures
        r@ == join_spec(list_items(Seq::empty(), *k, ps@), ", "@),
{
    let v: Vec<String> = Vec::new();
    assert(strings_view(v@) =~= Seq::<Seq<char>>::empty());
    joined_list(v, k, ps)
}

// ---------------------------------------------------------------------------
// The client text
// ---------------------------------------------------------------------------

/// A method's declaration in the trait.
pub open spec fn trait_sig_line(m: VtableMethodMeta) -> Seq<char> {
    "    fn "@ + m.name@ + "("@ + join_spec(list_items(seq!["&self"@], ParamList::RustDecl, m.params@), ", "@) + ")"@ + ret_rust_type(m.ret)
        + ";\n"@
}

/// The vtable entry of a method: a trampoline that calls the method on the
/// value behind the user data, converting the arguments and the result.
pub open spec fn trampoline_entry(t: Seq<char>, m: VtableMethodMeta) -> Seq<char> {
    "            "@ + m.name@ + ": {\n"@ + "                unsafe extern \"C\" fn __trampoline<__T: "@ + t + ">("@ + join_spec(
        list_items(seq!["__ud: *mut core::ffi::c_void"@], ParamList::CDecl, m.params@),
        ", "@,
    ) + ")"@ + ret_c_type(m.ret) + " {\n"@ + "                    let __obj = unsafe { &*(__ud as *const __T) };\n"@
        + "                    let __result = __obj."@ + m.name@ + "("@ + join_spec(list_items(Seq::empty(), ParamList::Arg, m.params@), ", "@)
        + ");\n"@ + "                    "@ + ret_conversion(m.ret) + "\n"@ + "                }\n"@ + "                __trampoline::<Self>\n"@
        + "            },\n"@
}

/// A method's function pointer field in the vtable struct.
pub open spec fn vtable_method_line(m: VtableMethodMeta) -> Seq<char> {
    "    pub "@ + m.name@ + ": unsafe extern \"C\" fn("@ + join_spec(
        list_items(seq!["*mut core::ffi::c_void"@], ParamList::CType, m.params@),
        ", "@,
    ) + ")"@ + ret_c_type(m.ret) + ",\n"@
}

/// A user field of the vtable struct.
pub open spec fn vtable_field_line(f: VtableFieldMeta) -> Seq<char> {
    "    pub "@ + f.name@ + ": "@ + f.field_type@ + ",\n"@
}

/// What is written for each method, by kind: 0 the trait declaration, 1 the
/// trampoline entry, 2 the vtable field.
pub open spec fn method_part(kind: int, t: Seq<char>, m: VtableMethodMeta) -> Seq<char> {
    if kind == 0 {
        trait_sig_line(m)
    } else if kind == 1 {
        trampoline_entry(t, m)
    } else {
        vtable_method_line(m)
    }
}

/// The parts of the given kind for the methods, in order.
pub open spec fn method_parts(kind: int, t: Seq<char>, ms: Seq<VtableMethodMeta>) -> Seq<char>
    decreases ms.len(),
{
    if ms.len() == 0 {
        Seq::empty()
    } else {
        method_parts(kind, t, ms.drop_last()) + method_part(kind, t, ms.last())
    }
}

/// The user fields of the vtable struct, in order.
pub open spec fn field_lines(fs: Seq<VtableFieldMeta>) -> Seq<char>
    decreases fs.len(),
{
    if fs.len() == 0 {
        Seq::empty()
    } else {
        field_lines(fs.drop_last()) + vtable_field_line(fs.last())
    }
}

/// The trait: the methods' declarations, then `__into_raw_handle`.
pub open spec fn trait_part(t: Seq<char>, vs: Seq<char>, w: Seq<char>, ms: Seq<VtableMethodMeta>) -> Seq<char> {
    "pub trait "@ + t + " {\n"@ + method_parts(0, t, ms) + "\n"@ + "    #[doc(hidden)]\n"@
        + "    fn __into_raw_handle(self) -> *mut core::ffi::c_void where Self: Sized {\n"@ + "        let __vtable: &'static "@ + vs + " = &"@ + vs
        + " {\n"@ + method_parts(1, t, ms) + "            drop: Some({\n"@
        + "                unsafe extern \"C\" fn __trampoline<__T>(__ud: *mut core::ffi::c_void) {\n"@
        + "                    unsafe { drop(Box::from_raw(__ud as *mut __T)) };\n"@ + "                }\n"@ + "                __trampoline::<Self>\n"@
        + "            }),\n"@ + "        };\n"@ + "        let __ud = Box::into_raw(Box::new(self)) as *mut core::ffi::c_void;\n"@ + "        "@ + w
        + "::new(__ud, __vtable).__into_raw()\n"@ + "    }\n"@ + "}\n\n"@
}

/// The vtable struct: the user fields, a function pointer per method, then
/// `drop`.
pub open spec fn struct_part(t: Seq<char>, vs: Seq<char>, fs: Seq<VtableFieldMeta>, ms: Seq<VtableMethodMeta>) -> Seq<char> {
    "#[repr(C)]\n"@ + "pub struct "@ + vs + " {\n"@ + field_lines(fs) + method_parts(2, t, ms)
        + "    pub drop: Option<unsafe extern \"C\" fn(*mut core::ffi::c_void)>,\n"@ + "}\n\n"@
}

/// The constructor's declaration and the wrapper around the handle.
pub open spec fn wrapper_part(vs: Seq<char>, w: Seq<char>, ctor: Seq<char>) -> Seq<char> {
    "unsafe extern \"C\" {\n"@ + "    pub fn "@ + ctor + "(user_data: *mut core::ffi::c_void, vtable: *const "@ + vs
        + ") -> *mut core::ffi::c_void;\n"@ + "}\n\n"@ + "pub struct "@ + w + "(*mut core::ffi::c_void);\n\n"@ + "impl "@ + w + " {\n"@
        + "    pub fn new(user_data: *mut core::ffi::c_void, vtable: &"@ + vs + ") -> Self {\n"@ + "        Self(unsafe { "@ + ctor
        + "(user_data, vtable) })\n"@ + "    }\n\n"@ + "    #[doc(hidden)]\n"@ + "    pub fn __into_raw(self) -> *mut core::ffi::c_void {\n"@
        + "        let this = std::mem::ManuallyDrop::new(self);\n"@ + "        this.0\n"@ + "    }\n"@ + "}\n\n"@ + "impl Drop for "@ + w + " {\n"@
        + "    fn drop(&mut self) {}\n"@ + "}\n"@
}

/// The client text of an implementable trait.
pub open spec fn implementable_client_spec(c: ImplementableClientMeta) -> Seq<char> {
    let vs = last_segment(c.vtable_struct_path@);
    let w = last_segment(c.wrapper_path@);
    trait_part(c.trait_name@, vs, w, c.vtable_methods@) + struct_part(c.trait_name@, vs, c.vtable_fields@, c.vtable_methods@) + wrapper_part(
        vs,
        w,
        c.constructor_name@,
    )
}

fn method_part_of(kind: u8, t: &str, m: &VtableMethodMeta) -> (r: String)
    requires
        kind <= 2,
    ensures
        r@ == method_part(kind as int, t@, *m),
{
    if kind == 0 {
        let mut s = owned("    fn ");
        push_str(&mut s, m.name.as_str());
        push_str(&mut s, "(");
        push_str(&mut s, joined_after("&self", &ParamList::RustDecl, &m.params).as_str());
        push_str(&mut s, ")");
        push_str(&mut s, ret_rust_type_of(&m.ret).as_str());
        push_str(&mut s, ";\n");
        assert(s@ =~= trait_sig_line(*m));
        s
    } else if kind == 1 {
        let mut s = owned("            ");
        push_str(&mut s, m.name.as_str());
        push_str(&mut s, ": {\n");
        push_str(&mut s, "                unsafe extern \"C\" fn __trampoline<__T: ");
        push_str(&mut s, t);
        push_str(&mut s, ">(");
        push_str(&mut s, joined_after("__ud: *mut core::ffi::c_void", &ParamList::CDecl, &m.params).as_str());
        push_str(&mut s, ")");
        push_str(&mut s, ret_c_type_of(&m.ret).as_str());
        push_str(&mut s, " {\n");
        push_str(&mut s, "                    let __obj = unsafe { &*(__ud as *const __T) };\n");
        push_str(&mut s, "                    let __result = __obj.");
        push_str(&mut s, m.name.as_str());
        push_str(&mut s, "(");
        push_str(&mut s, joined_alone(&ParamList::Arg, &m.params).as_str());
        push_str(&mut s, ");\n");
        push_str(&mut s, "                    ");
        push_str(&mut s, ret_conversion_of(&m.ret).as_str());
        push_str(&mut s, "\n");
        push_str(&mut s, "                }\n");
        push_str(&mut s, "                __trampoline::<Self>\n");
        push_str(&mut s, "            },\n");
        assert(s@ =~= trampoline_entry(t@, *m));
        s
    } else {
        let mut s = owned("    pub ");
        push_str(&mut s, m.name.as_str());
        push_str(&mut s, ": unsafe extern \"C\" fn(");
        push_str(&mut s, joined_after("*mut core::ffi::c_void", &ParamList::CType, &m.params).as_str());
        push_str(&mut s, ")");
        push_str(&mut s, ret_c_type_of(&m.ret).as_str());
        push_str(&mut s, ",\n");
        assert(s@ =~= vtable_method_line(*m));
        s
    }
}

fn push_method_parts(s: &mut String, kind: u8, t: &str, ms: &Vec<VtableMethodMeta>)
    requires
        kind <= 2,
    ensures
        final(s)@ == old(s)@ + method_parts(kind as int, t@, ms@),
{
    let ghost s0 = s@;
    let mut i: usize = 0;
    assert(ms@.take(0) =~= Seq::<VtableMethodMeta>::empty());
    assert(s@ =~= s0 + method_parts(kind as int, t@, ms@.take(0)));
    while i < ms.len()
        invariant
            i <= ms@.len(),
            kind <= 2,
            s@ == s0 + method_parts(kind as int, t@, ms@.take(i as int)),
        decreases ms@.len() - i,
    {
        push_str(s, method_part_of(kind, t, &ms[i]).as_str());
        assert(ms@.take(i + 1).drop_last() =~= ms@.take(i as int));
        assert(ms@.take(i + 1).last() == ms@[i as int]);
        i = i + 1;
        assert(s@ =~= s0 + method_parts(kind as int, t@, ms@.take(i as int)));
    }
    assert(ms@.take(ms@.len() as int) =~= ms@);
}

fn trait_part_of(t: &str, vs: &str, w: &str, ms: &Vec<VtableMethodMeta>) -> (r: String)
    ensures
        r@ == trait_part(t@, vs@, w@, ms@),
{
    let mut s = owned("pub trait ");
    push_str(&mut s, t);
    push_str(&mut s, " {\n");
    push_method_parts(&mut s, 0, t, ms);
    push_str(&mut s, "\n");
    push_str(&mut s, "    #[doc(hidden)]\n");
    push_str(&mut s, "    fn __into_raw_handle(self) -> *mut core::ffi::c_void where Self: Sized {\n");
    push_str(&mut s, "        let __vtable: &'static ");
    push_str(&mut s, vs);
    push_str(&mut s, " = &");
    push_str(&mut s, vs);
    push_str(&mut s, " {\n");
    push_method_parts(&mut s, 1, t, ms);
    push_str(&mut s, "            drop: Some({\n");
    push_str(&mut s, "                unsafe extern \"C\" fn __trampoline<__T>(__ud: *mut core::ffi::c_void) {\n");
    push_str(&mut s, "                    unsafe { drop(Box::from_raw(__ud as *mut __T)) };\n");
    push_str(&mut s, "                }\n");
    push_str(&mut s, "                __trampoline::<Self>\n");
    push_str(&mut s, "            }),\n");
    push_str(&mut s, "        };\n");
    push_str(&mut s, "        let __ud = Box::into_raw(Box::new(self)) as *mut core::ffi::c_void;\n");
    push_str(&mut s, "        ");
    push_str(&mut s, w);
    push_str(&mut s, "::new(__ud, __vtable).__into_raw()\n");
    push_str(&mut s, "    }\n");
    push_str(&mut s, "}\n\n");
    assert(s@ =~= trait_part(t@, vs@, w@, ms@));
    s
}

fn struct_part_of(t: &str, vs: &str, fs: &Vec<VtableFieldMeta>, ms: &Vec<VtableMethodMeta>) -> (r: String)
    ensures
        r@ == struct_part(t@, vs@, fs@, ms@),
{
    let mut s = owned("#[repr(C)]\n");
    push_str(&mut s, "pub struct ");
    push_str(&mut s, vs);
    push_str(&mut s, " {\n");
    let ghost s1 = s@;
    let mut i: usize = 0;
    assert(fs@.take(0) =~= Seq::<VtableFieldMeta>::empty());
    assert(s@ =~= s1 + field_lines(fs@.take(0)));
    while i < fs.len()
        invariant
            i <= fs@.len(),
            s@ == s1 + field_lines(fs@.take(i as int)),
        decreases fs@.len() - i,
    {
        let f = &fs[i];
        push_str(&mut s, "    pub ");
        push_str(&mut s, f.name.as_str());
        push_str(&mut s, ": ");
        push_str(&mut s, f.field_type.as_str());
        push_str(&mut s, ",\n");
        assert(fs@.take(i + 1).drop_last() =~= fs@.take(i as int));
        assert(fs@.take(i + 1).last() == fs@[i as int]);
        i = i + 1;
        assert(s@ =~= s1 + field_lines(fs@.take(i as int)));
    }
    assert(fs@.take(fs@.len() as int) =~= fs@);
    push_method_parts(&mut s, 2, t, ms);
    push_str(&mut s, "    pub drop: Option<unsafe extern \"C\" fn(*mut core::ffi::c_void)>,\n");
    push_str(&mut s, "}\n\n");
    assert(s@ =~= struct_part(t@, vs@, fs@, ms@));
    s
}

fn wrapper_part_of(vs: &str, w: &str, ctor: &str) -> (r: String)
    ensures
        r@ == wrapper_part(vs@, w@, ctor@),
{
    let mut s = owned("unsafe extern \"C\" {\n");
    push_str(&mut s, "    pub fn ");
    push_str(&mut s, ctor);
    push_str(&mut s, "(user_data: *mut core::ffi::c_void, vtable: *const ");
    push_str(&mut s, vs);
    push_str(&mut s, ") -> *mut core::ffi::c_void;\n");
    push_str(&mut s, "}\n\n");
    push_str(&mut s, "pub struct ");
    push_str(&mut s, w);
    push_str(&mut s, "(*mut core::ffi::c_void);\n\n");
    push_str(&mut s, "impl ");
    push_str(&mut s, w);
    push_str(&mut s, " {\n");
    push_str(&mut s, "    pub fn new(user_data: *mut core::ffi::c_void, vtable: &");
    push_str(&mut s, vs);
    push_str(&mut s, ") -> Self {\n");
    push_str(&mut s, "        Self(unsafe { ");
    push_str(&mut s, ctor);
    push_str(&mut s, "(user_data, vtable) })\n");
    push_str(&mut s, "    }\n\n");
    push_str(&mut s, "    #[doc(hidden)]\n");
    push_str(&mut s, "    pub fn __into_raw(self) -> *mut core::ffi::c_void {\n");
    push_str(&mut s, "        let this = std::mem::ManuallyDrop::new(self);\n");
    push_str(&mut s, "        this.0\n");
    push_str(&mut s, "    }\n");
    push_str(&mut s, "}\n\n");
    push_str(&mut s, "impl Drop for ");
    push_str(&mut s, w);
    push_str(&mut s, " {\n");
    push_str(&mut s, "    fn drop(&mut self) {}\n");
    push_str(&mut s, "}\n");
    assert(s@ =~= wrapper_part(vs@, w@, ctor@));
    s
}

/// The client text of a trait implementable from C: the trait, with a
/// default `__into_raw_handle` that boxes the value and hands it to the
/// library with a static vtable of trampolines; the vtable struct (user
/// fields, one function pointer per method, then `drop`); the declaration
/// of the constructor; and the wrapper around the handle. The struct and
/// wrapper are named by the last segment of their paths.
pub fn implementable_client_text(c: &ImplementableClientMeta) -> (r: String)
    ensures
        r@ == implementable_client_spec(*c),
{
    let vs = last_segment_of(c.vtable_struct_path.as_str());
    let w = last_segment_of(c.wrapper_path.as_str());
    let mut s = trait_part_of(c.trait_name.as_str(), vs.as_str(), w.as_str(), &c.vtable_methods);
    push_str(&mut s, struct_part_of(c.trait_name.as_str(), vs.as_str(), &c.vtable_fields, &c.vtable_methods).as_str());
    push_str(&mut s, wrapper_part_of(vs.as_str(), w.as_str(), c.constructor_name.as_str()).as_str());
    s
}

// ---------------------------------------------------------------------------
// The client of a trait impl
// ---------------------------------------------------------------------------

/// A trait implemented by an exported type, as its client sees it.
pub struct TraitImplClientMeta {
    pub trait_name: String,
    pub struct_name: String,
    /// The library's function prefix, such as `ex_`.
    pub fn_pfx: String,
    /// The type's lifetime parameters, without `'`.
    pub lifetimes: Vec<String>,
    /// The trait's lifetime arguments, without `'` (`static` for `'static`).
    pub trait_lifetime_args: Vec<String>,
    pub methods: Vec<VtableMethodMeta>,
    /// The trait is not defined yet in the client (no implementable trait
    /// of that name came first), so it is defined here.
    pub define_trait: bool,
}

/// `<'a, 'b>` of the given lifetimes, or nothing without any.
pub open spec fn lifetime_generics(lts: Seq<Seq<char>>) -> Seq<char> {
    if lts.len() == 0 {
        Seq::empty()
    } else {
        "<"@ + join_spec(lts.map_values(|l: Seq<char>| "'"@ + l), ", "@) + ">"@
    }
}

/// The lifetimes that are parameters: all but `static`.
pub open spec fn non_static_lts(lts: Seq<Seq<char>>) -> Seq<Seq<char>>
    decreases lts.len(),
{
    if lts.len() == 0 {
        Seq::empty()
    } else if lts.last() == "static"@ {
        non_static_lts(lts.drop_last())
    } else {
        non_static_lts(lts.drop_last()).push(lts.last())
    }
}

/// The C function of a trait method on the type.
pub open spec fn impl_ffi_name(t: TraitImplClientMeta, m: VtableMethodMeta) -> Seq<char> {
    t.fn_pfx@ + crate::naming::camel_to_snake_spec(t.struct_name@) + "_"@ + m.name@
}

/// The extern declaration of a trait method's C function.
pub open spec fn impl_extern_line(t: TraitImplClientMeta, m: VtableMethodMeta) -> Seq<char> {
    "    pub fn "@ + impl_ffi_name(t, m) + "("@ + join_spec(list_items(seq!["handle: *mut core::ffi::c_void"@], ParamList::CDecl, m.params@), ", "@)
        + ")"@ + ret_c_type(m.ret) + ";\n"@
}

/// The trait method on the type, calling the C function on the handle.
pub open spec fn impl_method_text(t: TraitImplClientMeta, m: VtableMethodMeta) -> Seq<char> {
    let call = impl_ffi_name(t, m) + "("@ + join_spec(list_items(seq!["self.0"@], ParamList::CallArg, m.params@), ", "@) + ")"@;
    "    fn "@ + m.name@ + "("@ + join_spec(list_items(seq!["&self"@], ParamList::RustDecl, m.params@), ", "@) + ")"@ + ret_rust_type(m.ret)
        + " {\n"@ + if m.ret is Void {
        "        unsafe { "@ + call + " }\n"@
    } else {
        "        let __raw = unsafe { "@ + call + " };\n"@ + "        "@ + raw_conversion(m.ret) + "\n"@
    } + "    }\n"@
}

/// What is written for each method, by kind: 0 its trait declaration, 1
/// its extern declaration, 2 its implementation.
pub open spec fn impl_part(kind: int, t: TraitImplClientMeta, m: VtableMethodMeta) -> Seq<char> {
    if kind == 0 {
        trait_sig_line(m)
    } else if kind == 1 {
        impl_extern_line(t, m)
    } else {
        impl_method_text(t, m)
    }
}

/// The parts of the given kind for the methods, in order.
pub open spec fn impl_parts(kind: int, t: TraitImplClientMeta, ms: Seq<VtableMethodMeta>) -> Seq<char>
    decreases ms.len(),
{
    if ms.len() == 0 {
        Seq::empty()
    } else {
        impl_parts(kind, t, ms.drop_last()) + impl_part(kind, t, ms.last())
    }
}

/// The client text of a trait impl: the trait's definition when it is not
/// defined yet, the extern declarations of its methods' C functions, and
/// the impl of the trait for the type, calling them on the handle.
pub open spec fn trait_impl_client_spec(t: TraitImplClientMeta) -> Seq<char> {
    let tn = t.trait_name@;
    let ig = lifetime_generics(strings_view(t.lifetimes@));
    let targs = lifetime_generics(strings_view(t.trait_lifetime_args@));
    let def = if t.define_trait {
        "pub trait "@ + tn + lifetime_generics(non_static_lts(strings_view(t.trait_lifetime_args@))) + " {\n"@ + impl_parts(0, t, t.methods@)
            + "\n"@ + "    #[doc(hidden)]\n"@ + "    fn __into_raw_handle(self) -> *mut core::ffi::c_void where Self: Sized;\n"@ + "}\n\n"@
    } else {
        Seq::empty()
    };
    def + "unsafe extern \"C\" {\n"@ + impl_parts(1, t, t.methods@) + "}\n\n"@ + "impl"@ + ig + " "@ + tn + targs + " for "@ + t.struct_name@ + ig
        + " {\n"@ + impl_parts(2, t, t.methods@) + "\n"@ + "    fn __into_raw_handle(self) -> *mut core::ffi::c_void {\n"@
        + "        let this = std::mem::ManuallyDrop::new(self);\n"@ + "        this.0\n"@ + "    }\n"@ + "}\n"@
}

fn lifetime_generics_of(lts: &Vec<String>, skip_static: bool) -> (r: String)
    ensures
        !skip_static ==> r@ == lifetime_generics(strings_view(lts@)),
        skip_static ==> r@ == lifetime_generics(non_static_lts(strings_view(lts@))),
{
    let ghost lv = strings_view(lts@);
    let mut kept: Vec<String> = Vec::new();
    let mut i: usize = 0;
    assert(lv.take(0) =~= Seq::<Seq<char>>::empty());
    while i < lts.len()
        invariant
            i <= lts@.len(),
            lv == strings_view(lts@),
            !skip_static ==> strings_view(kept@) == lv.take(i as int),
            skip_static ==> strings_view(kept@) == non_static_lts(lv.take(i as int)),
        decreases lts@.len() - i,
    {
        let ghost before = kept@;
        assert(lv.take(i + 1).drop_last() =~= lv.take(i as int));
        assert(lv.take(i + 1).last() == lv[i as int]);
        if !(skip_static && crate::text::str_eq(lts[i].as_str(), "static")) {
            kept.push(owned(lts[i].as_str()));
            assert(strings_view(kept@) =~= strings_view(before).push(lv[i as int]));
        }
        i = i + 1;
        assert(!skip_static ==> strings_view(kept@) =~= lv.take(i as int));
    }
    assert(lv.take(lts@.len() as int) =~= lv);
    let ghost kv = strings_view(kept@);
    if kept.len() == 0 {
        return String::new();
    }
    let ghost want = kv.map_values(|l: Seq<char>| "'"@ + l);
    let mut items: Vec<String> = Vec::new();
    let mut j: usize = 0;
    while j < kept.len()
        invariant
            j <= kept@.len(),
            kv == strings_view(kept@),
            want == kv.map_values(|l: Seq<char>| "'"@ + l),
            strings_view(items@) == want.take(j as int),
        decreases kept@.len() - j,
    {
        let ghost before = items@;
        let mut it = owned("'");
        push_str(&mut it, kept[j].as_str());
        items.push(it);
        assert(strings_view(items@) =~= strings_view(before).push(want[j as int]));
        j = j + 1;
        assert(strings_view(items@) =~= want.take(j as int));
    }
    assert(want.take(kept@.len() as int) =~= want);
    let mut s = owned("<");
    push_str(&mut s, join_strings(items.as_slice(), ", ").as_str());
    push_str(&mut s, ">");
    s
}

fn impl_part_of(kind: u8, t: &TraitImplClientMeta, snake: &str, m: &VtableMethodMeta) -> (r: String)
    requires
        kind <= 2,
        snake@ == crate::naming::camel_to_snake_spec(t.struct_name@),
    ensures
        r@ == impl_part(kind as int, *t, *m),
{
    if kind == 0 {
        return method_part_of(0, t.trait_name.as_str(), m);
    }
    let mut ffi = owned(t.fn_pfx.as_str());
    push_str(&mut ffi, snake);
    push_str(&mut ffi, "_");
    push_str(&mut ffi, m.name.as_str());
    if kind == 1 {
        let mut s = owned("    pub fn ");
        push_str(&mut s, ffi.as_str());
        push_str(&mut s, "(");
        push_str(&mut s, joined_after("handle: *mut core::ffi::c_void", &ParamList::CDecl, &m.params).as_str());
        push_str(&mut s, ")");
        push_str(&mut s, ret_c_type_of(&m.ret).as_str());
        push_str(&mut s, ";\n");
        assert(s@ =~= impl_extern_line(*t, *m));
        s
    } else {
        let mut call = ffi;
        push_str(&mut call, "(");
        push_str(&mut call, joined_after("self.0", &ParamList::CallArg, &m.params).as_str());
        push_str(&mut call, ")");
        let mut s = owned("    fn ");
        push_str(&mut s, m.name.as_str());
        push_str(&mut s, "(");
        push_str(&mut s, joined_after("&self", &ParamList::RustDecl, &m.params).as_str());
        push_str(&mut s, ")");
        push_str(&mut s, ret_rust_type_of(&m.ret).as_str());
        push_str(&mut s, " {\n");
        match &m.ret {
            VtableRetType::Void => {
                push_str(&mut s, "        unsafe { ");
                push_str(&mut s, call.as_str());
                push_str(&mut s, " }\n");
            },
            _ => {
                push_str(&mut s, "        let __raw = unsafe { ");
                push_str(&mut s, call.as_str());
                push_str(&mut s, " };\n");
                push_str(&mut s, "        ");
                push_str(&mut s, raw_conversion_of(&m.ret).as_str());
                push_str(&mut s, "\n");
            },
        }
        push_str(&mut s, "    }\n");
        assert(s@ =~= impl_method_text(*t, *m));
        s
    }
}

fn push_impl_parts(s: &mut String, kind: u8, t: &TraitImplClientMeta, snake: &str)
    requires
        kind <= 2,
        snake@ == crate::naming::camel_to_snake_spec(t.struct_name@),
    ensures
        final(s)@ == old(s)@ + impl_parts(kind as int, *t, t.methods@),
{
    let ghost s0 = s@;
    let mut i: usize = 0;
    assert(t.methods@.take(0) =~= Seq::<VtableMethodMeta>::empty());
    assert(s@ =~= s0 + impl_parts(kind as int, *t, t.methods@.take(0)));
    while i < t.methods.len()
        invariant
            i <= t.methods@.len(),
            kind <= 2,
            snake@ == crate::naming::camel_to_snake_spec(t.struct_name@),
            s@ == s0 + impl_parts(kind as int, *t, t.methods@.take(i as int)),
        decreases t.methods@.len() - i,
    {
        push_str(s, impl_part_of(kind, t, snake, &t.methods[i]).as_str());
        assert(t.methods@.take(i + 1).drop_last() =~= t.methods@.take(i as int));
        assert(t.methods@.take(i + 1).last() == t.methods@[i as int]);
        i = i + 1;
        assert(s@ =~= s0 + impl_parts(kind as int, *t, t.methods@.take(i as int)));
    }
    assert(t.methods@.take(t.methods@.len() as int) =~= t.methods@);
}

/// The client text of a trait impl: the trait's definition when it is not
/// defined yet (its lifetime parameters are the trait's lifetime arguments
/// other than `'static`), the extern declarations of the methods' C
/// functions, and the impl of the trait for the type, each method calling
/// its C function on the handle, and `__into_raw_handle` giving the handle
/// up.
pub fn trait_impl_client_text(t: &TraitImplClientMeta) -> (r: String)
    ensures
        r@ == trait_impl_client_spec(*t),
{
    let snake = crate::naming::camel_to_snake(t.struct_name.as_str());
    let ig = lifetime_generics_of(&t.lifetimes, false);
    let targs = lifetime_generics_of(&t.trait_lifetime_args, false);
    let mut s = String::new();
    if t.define_trait {
        push_str(&mut s, "pub trait ");
        push_str(&mut s, t.trait_name.as_str());
        push_str(&mut s, lifetime_generics_of(&t.trait_lifetime_args, true).as_str());
        push_str(&mut s, " {\n");
        push_impl_parts(&mut s, 0, t, snake.as_str());
        push_str(&mut s, "\n");
        push_str(&mut s, "    #[doc(hidden)]\n");
        push_str(&mut s, "    fn __into_raw_handle(self) -> *mut core::ffi::c_void where Self: Sized;\n");
        push_str(&mut s, "}\n\n");
    }
    let ghost s1 = s@;
    push_str(&mut s, "unsafe extern \"C\" {\n");
    push_impl_parts(&mut s, 1, t, snake.as_str());
    push_str(&mut s, "}\n\n");
    push_str(&mut s, "impl");
    push_str(&mut s, ig.as_str());
    push_str(&mut s, " ");
    push_str(&mut s, t.trait_name.as_str());
    push_str(&mut s, targs.as_str());
    push_str(&mut s, " for ");
    push_str(&mut s, t.struct_name.as_str());
    push_str(&mut s, ig.as_str());
    push_str(&mut s, " {\n");
    push_impl_parts(&mut s, 2, t, snake.as_str());
    push_str(&mut s, "\n");
    push_str(&mut s, "    fn __into_raw_handle(self) -> *mut core::ffi::c_void {\n");
    push_str(&mut s, "        let this = std::mem::ManuallyDrop::new(self);\n");
    push_str(&mut s, "        this.0\n");
    push_str(&mut s, "    }\n");
    push_str(&mut s, "}\n");
    assert(s@ =~= trait_impl_client_spec(*t));
    s
}

} // verus!
