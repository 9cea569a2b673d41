//! The library-wide parts of the bridge: the lookup from type tag to type
//! name, the helper that reports a handle of the wrong type, the list of
//! types each trait accepts, the debug function that names a handle's type,
//! and the function that assembles the C header from the sections.

use vstd::prelude::*;
use crate::dispatch::{TraitMap, TraitVariant};
use crate::text::{decimal, join_spec, join_strings, owned, push_decimal, push_str, str_eq, strings_view};

verus! {

/// The match arms from tag to name, in table order.
pub open spec fn type_name_arms(t: Seq<(u32, Seq<char>)>) -> Seq<char>
    decreases t.len(),
{
    if t.len() == 0 {
        Seq::empty()
    } else {
        type_name_arms(t.drop_last()) + "        "@ + decimal(t.last().0 as nat) + " => \""@ + t.last().1 + "\",\n"@
    }
}

/// `__ffier_type_name`: the name of the type with a given tag, `unknown`
/// for a tag of no type.
pub open spec fn type_name_fn_spec(t: Seq<(u32, Seq<char>)>) -> Seq<char> {
    "fn __ffier_type_name(tag: u32) -> &'static str {\n"@ + "    match tag {\n"@ + type_name_arms(t) + "        _ => \"unknown\",\n"@
        + "    }\n"@ + "}\n"@
}

/// `__ffier_dispatch_panic`: the panic of a function handed a handle of
/// the wrong type, naming the function, what it expected, the accepted
/// types (when there is a list) and the type found.
pub open spec fn dispatch_panic_fn_spec() -> Seq<char> {
    "#[cold]\n"@ + "#[inline(never)]\n"@ + "fn __ffier_dispatch_panic(fn_name: &str, expected: &str, accepted: &str, actual_tag: u32) -> ! {\n"@
        + "    let actual_name = __ffier_type_name(actual_tag);\n"@ + "    if accepted.is_empty() {\n"@
        + "        panic!(\"{}(): expected {}, got {} (type_tag={})\", fn_name, expected, actual_name, actual_tag);\n"@ + "    } else {\n"@
        + "        panic!(\"{}(): expected {} ({}), got {} (type_tag={})\", fn_name, expected, accepted, actual_name, actual_tag);\n"@
        + "    }\n"@ + "}\n"@
}

/// The names of a trait's variants.
pub open spec fn variant_names(vs: Seq<TraitVariant>) -> Seq<Seq<char>> {
    vs.map_values(|v: TraitVariant| v.name@)
}

/// One constant per trait: the names of the types it accepts, joined by
/// ` | `, in the trait map's order.
pub open spec fn accepted_consts(m: Seq<crate::dispatch::TraitDispatchInfo>) -> Seq<char>
    decreases m.len(),
{
    if m.len() == 0 {
        Seq::empty()
    } else {
        accepted_consts(m.drop_last()) + "const __FFIER_ACCEPTED_"@ + m.last().trait_name@ + ": &str = \""@ + join_spec(
            variant_names(m.last().variants@),
            " | "@,
        ) + "\";\n"@
    }
}

/// The dispatch helpers of a library: the type-name lookup over the tag
/// table, the panic helper, and the accepted-types constants.
pub open spec fn dispatch_helpers_spec(t: Seq<(u32, Seq<char>)>, m: TraitMap) -> Seq<char> {
    type_name_fn_spec(t) + "\n"@ + dispatch_panic_fn_spec() + "\n"@ + accepted_consts(m.traits@)
}

/// The text of the dispatch helpers of a library, given its table from tag
/// to type name (sorted by tag, as `type_tag_table` builds it) and its
/// trait map.
pub fn dispatch_helpers_text(table: &[(u32, String)], m: &TraitMap) -> (r: String)
    ensures
        r@ == dispatch_helpers_spec(table@.map_values(|p: (u32, String)| (p.0, p.1@)), *m),
{
    let ghost tv = table@.map_values(|p: (u32, String)| (p.0, p.1@));
    let mut s = owned("fn __ffier_type_name(tag: u32) -> &'static str {\n");
    push_str(&mut s, "    match tag {\n");
    let ghost s0 = s@;
    let mut i: usize = 0;
    assert(tv.take(0) =~= Seq::<(u32, Seq<char>)>::empty());
    while i < table.len()
        invariant
            i <= table@.len(),
            tv == table@.map_values(|p: (u32, String)| (p.0, p.1@)),
            s@ == s0 + type_name_arms(tv.take(i as int)),
        decreases table@.len() - i,
    {
        push_str(&mut s, "        ");
        push_decimal(&mut s, table[i].0 as u64);
        push_str(&mut s, " => \"");
        push_str(&mut s, table[i].1.as_str());
        push_str(&mut s, "\",\n");
        assert(tv.take(i + 1).drop_last() =~= tv.take(i as int));
        assert(tv.take(i + 1).last() == tv[i as int]);
        i = i + 1;
        assert(s@ =~= s0 + type_name_arms(tv.take(i as int)));
    }
    assert(tv.take(table@.len() as int) =~= tv);
    push_str(&mut s, "        _ => \"unknown\",\n");
    push_str(&mut s, "    }\n");
    push_str(&mut s, "}\n");
    assert(s@ =~= type_name_fn_spec(tv));
    push_str(&mut s, "\n");
    push_str(&mut s, "#[cold]\n");
    push_str(&mut s, "#[inline(never)]\n");
    push_str(&mut s, "fn __ffier_dispatch_panic(fn_name: &str, expected: &str, accepted: &str, actual_tag: u32) -> ! {\n");
    push_str(&mut s, "    let actual_name = __ffier_type_name(actual_tag);\n");
    push_str(&mut s, "    if accepted.is_empty() {\n");
    push_str(&mut s, "        panic!(\"{}(): expected {}, got {} (type_tag={})\", fn_name, expected, actual_name, actual_tag);\n");
    push_str(&mut s, "    } else {\n");
    push_str(
        &mut s,
        "        panic!(\"{}(): expected {} ({}), got {} (type_tag={})\", fn_name, expected, accepted, actual_name, actual_tag);\n",
    );
    push_str(&mut s, "    }\n");
    push_str(&mut s, "}\n");
    push_str(&mut s, "\n");
    let ghost s1 = s@;
    assert(s1 =~= type_name_fn_spec(tv) + "\n"@ + dispatch_panic_fn_spec() + "\n"@);
    let mut k: usize = 0;
    assert(m.traits@.take(0) =~= Seq::<crate::dispatch::TraitDispatchInfo>::empty());
    while k < m.traits.len()
        invariant
            k <= m.traits@.len(),
            s@ == s1 + accepted_consts(m.traits@.take(k as int)),
        decreases m.traits@.len() - k,
    {
        let info = &m.traits[k];
        push_str(&mut s, "const __FFIER_ACCEPTED_");
        push_str(&mut s, info.trait_name.as_str());
        push_str(&mut s, ": &str = \"");
        let mut names: Vec<String> = Vec::new();
        let mut j: usize = 0;
        while j < info.variants.len()
            invariant
                j <= info.variants@.len(),
                strings_view(names@) == variant_names(info.variants@).take(j as int),
            decreases info.variants@.len() - j,
        {
            let ghost before = names@;
            names.push(owned(info.variants[j].name.as_str()));
            assert(strings_view(names@) =~= strings_view(before).push(info.variants@[j as int].name@));
            j = j + 1;
            assert(strings_view(names@) =~= variant_names(info.variants@).take(j as int));
        }
        assert(variant_names(info.variants@).take(info.variants@.len() as int) =~= variant_names(info.variants@));
        push_str(&mut s, join_strings(names.as_slice(), " | ").as_str());
        push_str(&mut s, "\";\n");
        assert(m.traits@.take(k + 1).drop_last() =~= m.traits@.take(k as int));
        assert(m.traits@.take(k + 1).last() == m.traits@[k as int]);
        k = k + 1;
        assert(s@ =~= s1 + accepted_consts(m.traits@.take(k as int)));
    }
    assert(m.traits@.take(m.traits@.len() as int) =~= m.traits@);
    s
}

/// The exported debug function `{prefix}_debug_handle_type`: the name of
/// a handle's type, `null` for a null handle.
pub open spec fn debug_fn_spec(prefix: Seq<char>) -> Seq<char> {
    "#[unsafe(no_mangle)]\n"@ + "pub unsafe extern \"C\" fn "@ + prefix + "_debug_handle_type(handle: *const core::ffi::c_void) -> ffier::FfierBytes {\n"@
        + "    if handle.is_null() {\n"@ + "        return unsafe { ffier::FfierBytes::from_str(\"null\") };\n"@ + "    }\n"@
        + "    let tag = unsafe { ffier::handle_type_tag(handle) };\n"@ + "    let name = __ffier_type_name(tag);\n"@
        + "    unsafe { ffier::FfierBytes::from_str(name) }\n"@ + "}\n"@
}

/// The debug function of a library with the given prefix.
pub fn debug_fn_text(prefix: &str) -> (r: String)
    ensures
        r@ == debug_fn_spec(prefix@),
{
    let mut s = owned("#[unsafe(no_mangle)]\n");
    push_str(&mut s, "pub unsafe extern \"C\" fn ");
    push_str(&mut s, prefix);
    push_str(&mut s, "_debug_handle_type(handle: *const core::ffi::c_void) -> ffier::FfierBytes {\n");
    push_str(&mut s, "    if handle.is_null() {\n");
    push_str(&mut s, "        return unsafe { ffier::FfierBytes::from_str(\"null\") };\n");
    push_str(&mut s, "    }\n");
    push_str(&mut s, "    let tag = unsafe { ffier::handle_type_tag(handle) };\n");
    push_str(&mut s, "    let name = __ffier_type_name(tag);\n");
    push_str(&mut s, "    unsafe { ffier::FfierBytes::from_str(name) }\n");
    push_str(&mut s, "}\n");
    assert(s@ =~= debug_fn_spec(prefix@));
    s
}

/// The `.push(..)` lines of the header assembly, in order.
pub open spec fn header_pushes(names: Seq<Seq<char>>) -> Seq<char>
    decreases names.len(),
{
    if names.len() == 0 {
        Seq::empty()
    } else {
        header_pushes(names.drop_last()) + "        .push("@ + names.last() + "())\n"@
    }
}

/// `__ffier_header`: a header builder with the library's shared types and,
/// in order, the section of each header function named.
pub open spec fn header_assembly_spec(names: Seq<Seq<char>>) -> Seq<char> {
    "pub fn __ffier_header(guard: &str) -> ffier_gen_c::HeaderBuilder {\n"@
        + "    ffier_gen_c::HeaderBuilder::new(guard, __ffier_shared_types())\n"@ + header_pushes(names) + "}\n"@
}

/// The function that assembles the C header of a library from the header
/// functions of its items, named in the order their sections come.
pub fn header_assembly_text(names: &[String]) -> (r: String)
    ensures
        r@ == header_assembly_spec(strings_view(names@)),
{
    let ghost nv = strings_view(names@);
    let mut s = owned("pub fn __ffier_header(guard: &str) -> ffier_gen_c::HeaderBuilder {\n");
    push_str(&mut s, "    ffier_gen_c::HeaderBuilder::new(guard, __ffier_shared_types())\n");
    let ghost s0 = s@;
    let mut i: usize = 0;
    assert(nv.take(0) =~= Seq::<Seq<char>>::empty());
    while i < names.len()
        invariant
            i <= names@.len(),
            nv == strings_view(names@),
            s@ == s0 + header_pushes(nv.take(i as int)),
        decreases names@.len() - i,
    {
        push_str(&mut s, "        .push(");
        push_str(&mut s, names[i].as_str());
        push_str(&mut s, "())\n");
        assert(nv.take(i + 1).drop_last() =~= nv.take(i as int));
        assert(nv.take(i + 1).last() == nv[i as int]);
        i = i + 1;
        assert(s@ =~= s0 + header_pushes(nv.take(i as int)));
    }
    assert(nv.take(names@.len() as int) =~= nv);
    push_str(&mut s, "}\n");
    assert(s@ =~= header_assembly_spec(nv));
    s
}

// ---------------------------------------------------------------------------
// Error handles and packed results
// ---------------------------------------------------------------------------

/// A match arm of the error functions, for an error type with the given tag
/// and path: kind 0 copies the payload of an error handle, kind 1 names the
/// variant of a packed result.
pub open spec fn error_arm(kind: int, lib_crate: Seq<char>, tag: u32, path: Seq<char>) -> Seq<char> {
    if kind == 0 {
        "        "@ + decimal(tag as nat) + " => {\n"@ + "            let err: &"@ + path + " = unsafe { ffier::ffier_handle_borrow(handle) };\n"@
            + "            unsafe { ffier::FfiError::payload(err, out_buf, buf_size) };\n"@ + "        }\n"@
    } else {
        "        "@ + decimal(tag as nat) + " => {\n"@ + "            let code = ffier::ffier_result_code(r);\n"@ + "            <"@ + path + " as "@
            + lib_crate + "::FfiError>::static_message(code).as_ptr()\n"@ + "        }\n"@
    }
}

/// The arms for the error types, in order.
pub open spec fn error_arms(kind: int, lib_crate: Seq<char>, es: Seq<(u32, Seq<char>)>) -> Seq<char>
    decreases es.len(),
{
    if es.len() == 0 {
        Seq::empty()
    } else {
        error_arms(kind, lib_crate, es.drop_last()) + error_arm(kind, lib_crate, es.last().0, es.last().1)
    }
}

fn push_error_arms(s: &mut String, kind: u8, lib_crate: &str, es: &[(u32, String)])
    requires
        kind <= 1,
    ensures
        final(s)@ == old(s)@ + error_arms(kind as int, lib_crate@, es@.map_values(|e: (u32, String)| (e.0, e.1@))),
{
    let ghost ev = es@.map_values(|e: (u32, String)| (e.0, e.1@));
    let ghost s0 = s@;
    let mut i: usize = 0;
    assert(ev.take(0) =~= Seq::<(u32, Seq<char>)>::empty());
    assert(s@ =~= s0 + error_arms(kind as int, lib_crate@, ev.take(0)));
    while i < es.len()
        invariant
            i <= es@.len(),
            kind <= 1,
            ev == es@.map_values(|e: (u32, String)| (e.0, e.1@)),
            s@ == s0 + error_arms(kind as int, lib_crate@, ev.take(i as int)),
        decreases es@.len() - i,
    {
        let ghost before = s@;
        push_str(s, "        ");
        push_decimal(s, es[i].0 as u64);
        push_str(s, " => {\n");
        if kind == 0 {
            push_str(s, "            let err: &");
            push_str(s, es[i].1.as_str());
            push_str(s, " = unsafe { ffier::ffier_handle_borrow(handle) };\n");
            push_str(s, "            unsafe { ffier::FfiError::payload(err, out_buf, buf_size) };\n");
        } else {
            push_str(s, "            let code = ffier::ffier_result_code(r);\n");
            push_str(s, "            <");
            push_str(s, es[i].1.as_str());
            push_str(s, " as ");
            push_str(s, lib_crate);
            push_str(s, "::FfiError>::static_message(code).as_ptr()\n");
        }
        push_str(s, "        }\n");
        assert(s@ =~= before + error_arm(kind as int, lib_crate@, ev[i as int].0, ev[i as int].1));
        assert(ev.take(i + 1).drop_last() =~= ev.take(i as int));
        assert(ev.take(i + 1).last() == ev[i as int]);
        i = i + 1;
        assert(s@ =~= s0 + error_arms(kind as int, lib_crate@, ev.take(i as int)));
    }
    assert(ev.take(es@.len() as int) =~= ev);
}

/// `{prefix}_error_payload`: copies the payload of an error handle (of any
/// of the library's error types, found by its type tag) into the caller's
/// buffer; a null handle or a handle of another type leaves it untouched.
pub open spec fn error_payload_fn_spec(prefix: Seq<char>, es: Seq<(u32, Seq<char>)>) -> Seq<char> {
    "#[unsafe(no_mangle)]\n"@ + "pub unsafe extern \"C\" fn "@ + prefix
        + "_error_payload(handle: *const core::ffi::c_void, out_buf: *mut core::ffi::c_void, buf_size: usize) {\n"@
        + "    if handle.is_null() { return; }\n"@ + "    let type_tag = unsafe { ffier::handle_type_tag(handle) };\n"@ + "    match type_tag {\n"@
        + error_arms(0, Seq::empty(), es) + "        _ => {}\n"@ + "    }\n"@ + "}\n"@
}

/// The payload function of a library, given its error types' tags and
/// paths.
pub fn error_payload_fn_text(prefix: &str, errors: &[(u32, String)]) -> (r: String)
    ensures
        r@ == error_payload_fn_spec(prefix@, errors@.map_values(|e: (u32, String)| (e.0, e.1@))),
{
    let mut s = owned("#[unsafe(no_mangle)]\n");
    push_str(&mut s, "pub unsafe extern \"C\" fn ");
    push_str(&mut s, prefix);
    push_str(&mut s, "_error_payload(handle: *const core::ffi::c_void, out_buf: *mut core::ffi::c_void, buf_size: usize) {\n");
    push_str(&mut s, "    if handle.is_null() { return; }\n");
    push_str(&mut s, "    let type_tag = unsafe { ffier::handle_type_tag(handle) };\n");
    push_str(&mut s, "    match type_tag {\n");
    push_error_arms(&mut s, 0, "", errors);
    push_str(&mut s, "        _ => {}\n");
    push_str(&mut s, "    }\n");
    push_str(&mut s, "}\n");
    proof {
        reveal_strlit("");
        assert(""@ =~= Seq::<char>::empty());
    }
    assert(s@ =~= error_payload_fn_spec(prefix@, errors@.map_values(|e: (u32, String)| (e.0, e.1@))));
    s
}

/// `{prefix}_str_free`: takes back and frees a string the library handed
/// out as owned; a null string is left alone.
pub open spec fn str_free_fn_spec(prefix: Seq<char>) -> Seq<char> {
    "#[unsafe(no_mangle)]\n"@ + "pub unsafe extern \"C\" fn "@ + prefix + "_str_free(s: ffier::FfierBytes) {\n"@ + "    if !s.data.is_null() {\n"@
        + "        unsafe {\n"@ + "            let slice = core::slice::from_raw_parts_mut(s.data as *mut u8, s.len);\n"@
        + "            drop(Box::from_raw(core::str::from_utf8_unchecked_mut(slice)));\n"@ + "        }\n"@ + "    }\n"@ + "}\n"@
}

/// The string-freeing function of a library.
pub fn str_free_fn_text(prefix: &str) -> (r: String)
    ensures
        r@ == str_free_fn_spec(prefix@),
{
    let mut s = owned("#[unsafe(no_mangle)]\n");
    push_str(&mut s, "pub unsafe extern \"C\" fn ");
    push_str(&mut s, prefix);
    push_str(&mut s, "_str_free(s: ffier::FfierBytes) {\n");
    push_str(&mut s, "    if !s.data.is_null() {\n");
    push_str(&mut s, "        unsafe {\n");
    push_str(&mut s, "            let slice = core::slice::from_raw_parts_mut(s.data as *mut u8, s.len);\n");
    push_str(&mut s, "            drop(Box::from_raw(core::str::from_utf8_unchecked_mut(slice)));\n");
    push_str(&mut s, "        }\n");
    push_str(&mut s, "    }\n");
    push_str(&mut s, "}\n");
    assert(s@ =~= str_free_fn_spec(prefix@));
    s
}

/// `{prefix}_result_name_cstr` and `{prefix}_result_name`: the name of the
/// variant a packed result holds (`success` for 0, `unknown error` for the
/// tag of no error type), as a C string and as bytes.
pub open spec fn result_name_fns_spec(prefix: Seq<char>, lib_crate: Seq<char>, es: Seq<(u32, Seq<char>)>) -> Seq<char> {
    "#[unsafe(no_mangle)]\n"@ + "pub unsafe extern \"C\" fn "@ + prefix + "_result_name_cstr(r: ffier::FfierResult) -> *const core::ffi::c_char {\n"@
        + "    if r == 0 { return b\"success\\0\".as_ptr() as *const core::ffi::c_char; }\n"@
        + "    let type_tag = ffier::ffier_result_type_tag(r);\n"@ + "    match type_tag {\n"@ + error_arms(1, lib_crate, es)
        + "        _ => unsafe { core::ffi::CStr::from_bytes_with_nul_unchecked(b\"unknown error\\0\").as_ptr() },\n"@ + "    }\n"@ + "}\n\n"@
        + "#[unsafe(no_mangle)]\n"@ + "pub unsafe extern \"C\" fn "@ + prefix + "_result_name(r: ffier::FfierResult) -> ffier::FfierBytes {\n"@
        + "    let ptr = unsafe { "@ + prefix + "_result_name_cstr(r) };\n"@
        + "    let len = unsafe { core::ffi::CStr::from_ptr(ptr) }.to_bytes().len();\n"@ + "    ffier::FfierBytes { data: ptr as *const u8, len }\n"@
        + "}\n"@
}

/// The result-name functions of a library, given the path of the library
/// crate and its error types' tags and paths.
pub fn result_name_fns_text(prefix: &str, lib_crate: &str, errors: &[(u32, String)]) -> (r: String)
    ensures
        r@ == result_name_fns_spec(prefix@, lib_crate@, errors@.map_values(|e: (u32, String)| (e.0, e.1@))),
{
    let mut s = owned("#[unsafe(no_mangle)]\n");
    push_str(&mut s, "pub unsafe extern \"C\" fn ");
    push_str(&mut s, prefix);
    push_str(&mut s, "_result_name_cstr(r: ffier::FfierResult) -> *const core::ffi::c_char {\n");
    push_str(&mut s, "    if r == 0 { return b\"success\\0\".as_ptr() as *const core::ffi::c_char; }\n");
    push_str(&mut s, "    let type_tag = ffier::ffier_result_type_tag(r);\n");
    push_str(&mut s, "    match type_tag {\n");
    push_error_arms(&mut s, 1, lib_crate, errors);
    push_str(&mut s, "        _ => unsafe { core::ffi::CStr::from_bytes_with_nul_unchecked(b\"unknown error\\0\").as_ptr() },\n");
    push_str(&mut s, "    }\n");
    push_str(&mut s, "}\n\n");
    push_str(&mut s, "#[unsafe(no_mangle)]\n");
    push_str(&mut s, "pub unsafe extern \"C\" fn ");
    push_str(&mut s, prefix);
    push_str(&mut s, "_result_name(r: ffier::FfierResult) -> ffier::FfierBytes {\n");
    push_str(&mut s, "    let ptr = unsafe { ");
    push_str(&mut s, prefix);
    push_str(&mut s, "_result_name_cstr(r) };\n");
    push_str(&mut s, "    let len = unsafe { core::ffi::CStr::from_ptr(ptr) }.to_bytes().len();\n");
    push_str(&mut s, "    ffier::FfierBytes { data: ptr as *const u8, len }\n");
    push_str(&mut s, "}\n");
    assert(s@ =~= result_name_fns_spec(prefix@, lib_crate@, errors@.map_values(|e: (u32, String)| (e.0, e.1@))));
    s
}

// ---------------------------------------------------------------------------
// The library crate's path
// ---------------------------------------------------------------------------

/// The first position at or after `i` that holds `;` (the end if none).
pub open spec fn semicolon_from(tokens: Seq<Seq<char>>, i: int) -> int
    decreases tokens.len() - i,
{
    if i >= tokens.len() {
        tokens.len() as int
    } else if tokens[i] == ";"@ {
        i
    } else {
        semicolon_from(tokens, i + 1)
    }
}

/// The message when the batch does not start with the library crate's path.
pub open spec fn missing_lib_crate_message() -> Seq<char> {
    "missing @lib_crate prefix in bridge metadata"@
}

/// The batch input, as a list of tokens, starts `@ lib_crate = path ;`: the
/// path is the tokens after the first three up to the first `;` (or the
/// end), and the items start after that `;`. Without the leading `@` the
/// batch is refused.
pub fn split_lib_crate(tokens: &[String]) -> (r: Result<(Vec<String>, usize), String>)
    ensures
        match r {
            Ok((path, rest)) => tokens@.len() > 0 && tokens@[0]@ == "@"@ && ({
                let stop = semicolon_from(strings_view(tokens@), 3);
                &&& tokens@.len() >= 3 ==> strings_view(path@) == strings_view(tokens@).subrange(3, stop)
                &&& tokens@.len() < 3 ==> path@.len() == 0
                &&& rest == if tokens@.len() < 3 { tokens@.len() as int } else if stop < tokens@.len() { stop + 1 } else { stop }
            }),
            Err(msg) => !(tokens@.len() > 0 && tokens@[0]@ == "@"@) && msg@ == missing_lib_crate_message(),
        },
{
    if tokens.len() == 0 || !str_eq(tokens[0].as_str(), "@") {
        return Err(owned("missing @lib_crate prefix in bridge metadata"));
    }
    let ghost tv = strings_view(tokens@);
    if tokens.len() < 3 {
        return Ok((Vec::new(), tokens.len()));
    }
    let mut path: Vec<String> = Vec::new();
    let mut i: usize = 3;
    assert(tv.subrange(3, 3) =~= Seq::<Seq<char>>::empty());
    while i < tokens.len() && !str_eq(tokens[i].as_str(), ";")
        invariant
            3 <= i <= tokens@.len(),
            tv == strings_view(tokens@),
            semicolon_from(tv, i as int) == semicolon_from(tv, 3),
            strings_view(path@) == tv.subrange(3, i as int),
        decreases tokens@.len() - i,
    {
        let ghost before = path@;
        path.push(owned(tokens[i].as_str()));
        assert(strings_view(path@) =~= strings_view(before).push(tv[i as int]));
        i = i + 1;
        assert(strings_view(path@) =~= tv.subrange(3, i as int));
    }
    if i < tokens.len() {
        Ok((path, i + 1))
    } else {
        Ok((path, i))
    }
}

} // verus!
