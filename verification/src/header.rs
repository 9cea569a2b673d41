//! The standalone C header generator: the pieces of text it writes for a
//! library's constants, declarations and vtables.
//!
//! The schema is given here as plain values whose C type names are already
//! resolved: a parameter carries its C type, a return carries the C type of
//! its value.

use vstd::prelude::*;
use crate::gen_c::byte_len;
use crate::naming::to_ascii_uppercase;
use crate::typedefs::{emit_trait_typedefs, lemma_sorted_traits_unique, sorted_traits, typedefs_text, TraitImplementor};
use crate::text::{
    ascii_upper, chars_of, push_char, decimal, join_spec, join_strings, owned, push_decimal, push_repeat, push_signed_decimal,
    push_str, repeat_spec, signed_decimal, strings_view,
};

verus! {

// ---------------------------------------------------------------------------
// Section headers and doc comments
// ---------------------------------------------------------------------------

/// The number of dashes after a section name: the banner is padded to 72
/// columns (counting bytes, as `str::len` does), and has none when the name
/// is too long.
pub open spec fn dash_count(name: Seq<char>) -> nat {
    let n = byte_len(name) as usize;
    if n >= 66 {
        0
    } else {
        (66 - n) as nat
    }
}

/// The comment that opens a section: `\n/* name ----- */\n\n`.
pub open spec fn section_header_text(name: Seq<char>) -> Seq<char> {
    "\n/* "@ + name + " "@ + repeat_spec('-', dash_count(name)) + " */\n\n"@
}

/// Appends the comment that opens a section.
pub fn emit_section_header(out: &mut String, name: &str)
    ensures
        final(out)@ == old(out)@ + section_header_text(name@),
{
    let n = name.len();
    let dashes: usize = if n >= 66 {
        0
    } else {
        66 - n
    };
    push_str(out, "\n/* ");
    push_str(out, name);
    push_str(out, " ");
    push_repeat(out, '-', dashes);
    push_str(out, " */\n\n");
    assert(out@ =~= old(out)@ + section_header_text(name@));
}

/// The lines ` *line\n` of a multi-line doc comment.
pub open spec fn doc_lines_text(doc: Seq<Seq<char>>) -> Seq<char>
    decreases doc.len(),
{
    if doc.len() == 0 {
        Seq::empty()
    } else {
        doc_lines_text(doc.drop_last()) + " *"@ + doc.last() + "\n"@
    }
}

/// A doc comment: nothing for no lines, `/**line */` for one line, and a
/// block comment otherwise.  The lines are used as written (they keep the
/// leading space of `/// text`).
pub open spec fn doc_comment_text(doc: Seq<Seq<char>>) -> Seq<char> {
    if doc.len() == 0 {
        Seq::empty()
    } else if doc.len() == 1 {
        "/**"@ + doc[0] + " */\n"@
    } else {
        "/**\n"@ + doc_lines_text(doc) + " */\n"@
    }
}

/// Appends the doc comment of a declaration.
pub fn emit_doc_comment(out: &mut String, doc: &[String])
    ensures
        final(out)@ == old(out)@ + doc_comment_text(strings_view(doc@)),
{
    let ghost dv = strings_view(doc@);
    if doc.len() == 0 {
        assert(out@ =~= old(out)@ + doc_comment_text(dv));
        return;
    }
    if doc.len() == 1 {
        push_str(out, "/**");
        push_str(out, doc[0].as_str());
        push_str(out, " */\n");
        assert(out@ =~= old(out)@ + doc_comment_text(dv));
        return;
    }
    push_str(out, "/**\n");
    let ghost o1 = out@;
    let mut i: usize = 0;
    assert(dv.take(0) =~= Seq::<Seq<char>>::empty());
    while i < doc.len()
        invariant
            i <= doc@.len(),
            dv == strings_view(doc@),
            out@ == o1 + doc_lines_text(dv.take(i as int)),
        decreases doc@.len() - i,
    {
        push_str(out, " *");
        push_str(out, doc[i].as_str());
        push_str(out, "\n");
        i = i + 1;
        assert(dv.take(i as int).drop_last() =~= dv.take(i - 1));
        assert(dv.take(i as int).last() == doc@[i - 1]@);
        assert(out@ =~= o1 + doc_lines_text(dv.take(i as int)));
    }
    assert(dv.take(dv.len() as int) =~= dv);
    push_str(out, " */\n");
    assert(out@ =~= old(out)@ + doc_comment_text(dv));
}

// ---------------------------------------------------------------------------
// Enum and error constants
// ---------------------------------------------------------------------------

/// A constant of a C-style enum or of a bitflags type.
pub struct EnumVariant {
    pub name: String,
    /// The C macro name, e.g. `FT_COLOR_RED`.
    pub c_name: String,
    pub value: i64,
}

/// A C-style enum or bitflags type with its constants.
pub struct EnumType {
    pub name: String,
    pub variants: Vec<EnumVariant>,
}

/// The `#define` lines of enum constants, in order.
pub open spec fn enum_defines(vs: Seq<EnumVariant>) -> Seq<char>
    decreases vs.len(),
{
    if vs.len() == 0 {
        Seq::empty()
    } else {
        enum_defines(vs.drop_last()) + "#define "@ + vs.last().c_name@ + " "@ + signed_decimal(
            vs.last().value as int,
        ) + "\n"@
    }
}

/// Appends an enum's section: its header and one `#define` per constant.
pub fn emit_enum_section(out: &mut String, en: &EnumType)
    ensures
        final(out)@ == old(out)@ + section_header_text(en.name@) + enum_defines(en.variants@),
{
    emit_section_header(out, en.name.as_str());
    let ghost o1 = out@;
    let mut i: usize = 0;
    assert(en.variants@.take(0) =~= Seq::<EnumVariant>::empty());
    while i < en.variants.len()
        invariant
            i <= en.variants@.len(),
            out@ == o1 + enum_defines(en.variants@.take(i as int)),
        decreases en.variants@.len() - i,
    {
        let v = &en.variants[i];
        push_str(out, "#define ");
        push_str(out, v.c_name.as_str());
        push_str(out, " ");
        push_signed_decimal(out, v.value);
        push_str(out, "\n");
        i = i + 1;
        assert(en.variants@.take(i as int).drop_last() =~= en.variants@.take(i - 1));
        assert(out@ =~= o1 + enum_defines(en.variants@.take(i as int)));
    }
    assert(en.variants@.take(en.variants@.len() as int) =~= en.variants@);
}

/// A variant of an error type, with its C constant name and code.
pub struct ErrorVariantDecl {
    pub name: String,
    /// The C macro name, e.g. `FT_ERROR_TEST_NOT_FOUND`.
    pub c_name: String,
    pub code: u32,
}

/// An error type with its variants.
pub struct ErrorTypeDecl {
    pub name: String,
    pub variants: Vec<ErrorVariantDecl>,
}

/// The `#define` lines of error codes: each code combined with the type
/// tag of the error type in the upper 32 bits.
pub open spec fn error_defines(type_tag: u32, vs: Seq<ErrorVariantDecl>) -> Seq<char>
    decreases vs.len(),
{
    if vs.len() == 0 {
        Seq::empty()
    } else {
        error_defines(type_tag, vs.drop_last()) + "#define "@ + vs.last().c_name@ + " ((uint64_t)"@
            + decimal(type_tag as nat) + " << 32 | "@ + decimal(vs.last().code as nat) + ")\n"@
    }
}

/// Appends an error type's section: its header and one `#define` per
/// variant.
pub fn emit_error_section(out: &mut String, err: &ErrorTypeDecl, type_tag: u32)
    ensures
        final(out)@ == old(out)@ + section_header_text(err.name@) + error_defines(type_tag, err.variants@),
{
    emit_section_header(out, err.name.as_str());
    let ghost o1 = out@;
    let mut i: usize = 0;
    assert(err.variants@.take(0) =~= Seq::<ErrorVariantDecl>::empty());
    while i < err.variants.len()
        invariant
            i <= err.variants@.len(),
            out@ == o1 + error_defines(type_tag, err.variants@.take(i as int)),
        decreases err.variants@.len() - i,
    {
        let v = &err.variants[i];
        push_str(out, "#define ");
        push_str(out, v.c_name.as_str());
        push_str(out, " ((uint64_t)");
        push_decimal(out, type_tag as u64);
        push_str(out, " << 32 | ");
        push_decimal(out, v.code as u64);
        push_str(out, ")\n");
        i = i + 1;
        assert(err.variants@.take(i as int).drop_last() =~= err.variants@.take(i - 1));
        assert(out@ =~= o1 + error_defines(type_tag, err.variants@.take(i as int)));
    }
    assert(err.variants@.take(err.variants@.len() as int) =~= err.variants@);
}

// ---------------------------------------------------------------------------
// Utility functions
// ---------------------------------------------------------------------------

/// The declarations of the result-name utility functions.
pub open spec fn utility_functions_text(fn_pfx: Seq<char>, result_c: Seq<char>, str_c: Seq<char>) -> Seq<char> {
    str_c + " "@ + fn_pfx + "result_name("@ + result_c + " r);\n"@ + "const char* "@ + fn_pfx
        + "result_name_cstr("@ + result_c + " r);\n"@
}

/// Appends the declarations of the utility functions.
pub fn emit_utility_functions(out: &mut String, fn_pfx: &str, result_c: &str, str_c: &str)
    ensures
        final(out)@ == old(out)@ + utility_functions_text(fn_pfx@, result_c@, str_c@),
{
    push_str(out, str_c);
    push_str(out, " ");
    push_str(out, fn_pfx);
    push_str(out, "result_name(");
    push_str(out, result_c);
    push_str(out, " r);\n");
    push_str(out, "const char* ");
    push_str(out, fn_pfx);
    push_str(out, "result_name_cstr(");
    push_str(out, result_c);
    push_str(out, " r);\n");
    assert(out@ =~= old(out)@ + utility_functions_text(fn_pfx@, result_c@, str_c@));
}

// ---------------------------------------------------------------------------
// Parameters and returns
// ---------------------------------------------------------------------------

/// A C parameter: its C type and its name.
pub struct CNamedType {
    pub c_type: String,
    pub name: String,
}

/// A parameter of a method as it appears in C.
pub enum CParam {
    /// One C parameter (a regular type, or an `impl Trait` handle).
    Single(CNamedType),
    /// A slice, passed as several C parameters (pointer and length).
    Slice(Vec<CNamedType>),
}

/// `c_type name`.
pub open spec fn named_decl(p: CNamedType) -> Seq<char> {
    p.c_type@ + " "@ + p.name@
}

/// The declarations of the C parameters of a slice.
pub open spec fn slice_decls(cs: Seq<CNamedType>) -> Seq<Seq<char>> {
    cs.map_values(|c: CNamedType| named_decl(c))
}

/// The C parameter declarations of a list of parameters, in order.
pub open spec fn param_decls(ps: Seq<CParam>) -> Seq<Seq<char>>
    decreases ps.len(),
{
    if ps.len() == 0 {
        Seq::empty()
    } else {
        param_decls(ps.drop_last()) + match ps.last() {
            CParam::Single(c) => seq![named_decl(c)],
            CParam::Slice(cs) => slice_decls(cs@),
        }
    }
}

fn named_decl_of(p: &CNamedType) -> (r: String)
    ensures
        r@ == named_decl(*p),
{
    let mut s = p.c_type.clone();
    push_str(&mut s, " ");
    push_str(&mut s, p.name.as_str());
    s
}

/// Appends the C parameter declarations of `params` to `out`.
pub fn format_c_params(params: &[CParam], out: &mut Vec<String>)
    ensures
        strings_view(final(out)@) == strings_view(old(out)@) + param_decls(params@),
{
    let ghost o0 = strings_view(out@);
    let mut i: usize = 0;
    assert(params@.take(0) =~= Seq::<CParam>::empty());
    assert(strings_view(out@) =~= o0 + param_decls(params@.take(0)));
    while i < params.len()
        invariant
            i <= params@.len(),
            strings_view(out@) == o0 + param_decls(params@.take(i as int)),
        decreases params@.len() - i,
    {
        let ghost before = strings_view(out@);
        match &params[i] {
            CParam::Single(c) => {
                let d = named_decl_of(c);
                out.push(d);
                assert(strings_view(out@) =~= before + seq![named_decl(*c)]);
            },
            CParam::Slice(cs) => {
                let mut k: usize = 0;
                assert(slice_decls(cs@.take(0)) =~= Seq::<Seq<char>>::empty());
                while k < cs.len()
                    invariant
                        k <= cs@.len(),
                        strings_view(out@) == before + slice_decls(cs@.take(k as int)),
                    decreases cs@.len() - k,
                {
                    let d = named_decl_of(&cs[k]);
                    let ghost mid = strings_view(out@);
                    out.push(d);
                    k = k + 1;
                    assert(strings_view(out@) =~= mid.push(named_decl(cs@[k - 1])));
                    assert(slice_decls(cs@.take(k as int)) =~= slice_decls(cs@.take(k - 1)).push(
                        named_decl(cs@[k - 1]),
                    ));
                }
                assert(cs@.take(cs@.len() as int) =~= cs@);
            },
        }
        i = i + 1;
        assert(params@.take(i as int).drop_last() =~= params@.take(i - 1));
        assert(strings_view(out@) =~= o0 + param_decls(params@.take(i as int)));
    }
    assert(params@.take(params@.len() as int) =~= params@);
}

/// What a method returns, as seen from C.
pub enum CReturn {
    /// Nothing.
    Void,
    /// A value of the given C type.
    Value(String),
    /// A `Result` returned GLib-style: the handle of the given C type, NULL
    /// on error, with the error in an out-parameter.
    HandleOrNull(String),
    /// A `Result` returned as a result code, with the success value (of the
    /// given C type, if any) and the error in out-parameters.
    OutParam(Option<String>),
}

/// The C names of the library's blessed types.
pub struct BlessedTypes {
    /// The handle type of errors.
    pub error_c: String,
    /// The result code type.
    pub result_c: String,
}

/// `error_c* err_out`.
pub open spec fn err_out(error_c: Seq<char>) -> Seq<char> {
    error_c + "* err_out"@
}

/// The C return type and the extra out-parameters of a return.  A method
/// that returns its builder (`is_builder`) returns nothing by value.
pub open spec fn return_parts(ret: CReturn, is_builder: bool, error_c: Seq<char>, result_c: Seq<char>) -> (Seq<char>, Seq<Seq<char>>) {
    match ret {
        CReturn::Void => ("void"@, Seq::empty()),
        CReturn::Value(c) => if is_builder {
            ("void"@, Seq::empty())
        } else {
            (c@, Seq::empty())
        },
        CReturn::HandleOrNull(ok) => (ok@, seq![err_out(error_c)]),
        CReturn::OutParam(ok) => match ok {
            Some(c) => if is_builder {
                (result_c, seq![err_out(error_c)])
            } else {
                (result_c, seq![c@ + "* result"@, err_out(error_c)])
            },
            None => (result_c, seq![err_out(error_c)]),
        },
    }
}

fn err_out_of(error_c: &str) -> (r: String)
    ensures
        r@ == err_out(error_c@),
{
    let mut s = owned(error_c);
    push_str(&mut s, "* err_out");
    s
}

/// The C return type and the extra out-parameters of a method's return.
pub fn format_return_and_out_params(ret: &CReturn, is_builder: bool, blessed: &BlessedTypes) -> (r: (String, Vec<String>))
    ensures
        (r.0@, strings_view(r.1@)) == return_parts(*ret, is_builder, blessed.error_c@, blessed.result_c@),
{
    let mut extra: Vec<String> = Vec::new();
    let ret_type = match ret {
        CReturn::Void => owned("void"),
        CReturn::Value(c) => if is_builder {
            owned("void")
        } else {
            c.clone()
        },
        CReturn::HandleOrNull(ok) => {
            extra.push(err_out_of(blessed.error_c.as_str()));
            ok.clone()
        },
        CReturn::OutParam(ok) => {
            match ok {
                Some(c) => {
                    if !is_builder {
                        let mut res = c.clone();
                        push_str(&mut res, "* result");
                        extra.push(res);
                    }
                },
                None => {},
            }
            extra.push(err_out_of(blessed.error_c.as_str()));
            blessed.result_c.clone()
        },
    };
    assert((ret_type@, strings_view(extra@)) =~= return_parts(*ret, is_builder, blessed.error_c@, blessed.result_c@));
    (ret_type, extra)
}

// ---------------------------------------------------------------------------
// Declarations
// ---------------------------------------------------------------------------

/// How a method takes its receiver.
#[derive(Clone, Copy, Debug, PartialEq, Eq, Structural)]
pub enum Receiver {
    /// No receiver (an associated function).
    NoSelf,
    /// `self`.
    Value,
    /// `&self`.
    Ref,
    /// `&mut self`.
    Mut,
}

/// Where a method is exported from.
pub enum MethodContext {
    /// A method of an exported type, with its C function name.
    Exportable(String),
    /// A trait method, with its vtable slot and its C function name.
    Trait { index: usize, ffi_name: String },
}

/// A method of the schema, with its C types resolved.
pub struct CMethod {
    pub name: String,
    pub doc: Vec<String>,
    pub receiver: Receiver,
    pub params: Vec<CParam>,
    pub ret: CReturn,
    /// The method returns its own builder (`Self`).
    pub returns_builder_self: bool,
    pub context: MethodContext,
}

/// `ret name(p1, p2, ...);`.
pub open spec fn decl_text(ret_type: Seq<char>, ffi_name: Seq<char>, params: Seq<Seq<char>>) -> Seq<char> {
    ret_type + " "@ + ffi_name + "("@ + join_spec(params, ", "@) + ");"@
}

/// The handle parameter of an exported method: by pointer for a builder
/// consumed by value, none for an associated function.
pub open spec fn handle_params(receiver: Receiver, is_builder_type: bool, handle_c_name: Seq<char>) -> Seq<Seq<char>> {
    match receiver {
        Receiver::NoSelf => Seq::empty(),
        Receiver::Value => if is_builder_type {
            seq![handle_c_name + "* handle"@]
        } else {
            seq![handle_c_name + " handle"@]
        },
        _ => seq![handle_c_name + " handle"@],
    }
}

/// The C declaration of a method of an exported type.
pub open spec fn c_declaration(ffi_name: Seq<char>, handle_c_name: Seq<char>, m: CMethod, is_builder_type: bool, blessed: BlessedTypes) -> Seq<char> {
    let rp = return_parts(m.ret, m.returns_builder_self, blessed.error_c@, blessed.result_c@);
    decl_text(rp.0, ffi_name, handle_params(m.receiver, is_builder_type, handle_c_name) + param_decls(m.params@) + rp.1)
}

/// The C declaration of a trait dispatch or trait impl method.
pub open spec fn dispatch_declaration(ffi_name: Seq<char>, handle_c_name: Seq<char>, m: CMethod, blessed: BlessedTypes) -> Seq<char> {
    let rp = return_parts(m.ret, m.returns_builder_self, blessed.error_c@, blessed.result_c@);
    decl_text(rp.0, ffi_name, seq![handle_c_name + " handle"@] + param_decls(m.params@) + rp.1)
}

fn decl_of(ret_type: &str, ffi_name: &str, params: &Vec<String>) -> (r: String)
    ensures
        r@ == decl_text(ret_type@, ffi_name@, strings_view(params@)),
{
    let mut s = owned(ret_type);
    push_str(&mut s, " ");
    push_str(&mut s, ffi_name);
    push_str(&mut s, "(");
    let joined = join_strings(params.as_slice(), ", ");
    push_str(&mut s, joined.as_str());
    push_str(&mut s, ");");
    s
}

/// Formats the C declaration of a method of an exported type.
pub fn format_c_declaration(
    ffi_name: &str,
    handle_c_name: &str,
    m: &CMethod,
    is_builder_type: bool,
    blessed: &BlessedTypes,
) -> (r: String)
    ensures
        r@ == c_declaration(ffi_name@, handle_c_name@, *m, is_builder_type, *blessed),
{
    let mut params: Vec<String> = Vec::new();
    match m.receiver {
        Receiver::NoSelf => {},
        Receiver::Value => {
            let mut h = owned(handle_c_name);
            if is_builder_type {
                push_str(&mut h, "* handle");
            } else {
                push_str(&mut h, " handle");
            }
            params.push(h);
        },
        _ => {
            let mut h = owned(handle_c_name);
            push_str(&mut h, " handle");
            params.push(h);
        },
    }
    assert(strings_view(params@) =~= handle_params(m.receiver, is_builder_type, handle_c_name@));
    format_c_params(m.params.as_slice(), &mut params);
    let (ret_type, extra) = format_return_and_out_params(&m.ret, m.returns_builder_self, blessed);
    let ghost before = strings_view(params@);
    let ghost ev = extra@;
    let mut extra = extra;
    params.append(&mut extra);
    assert(strings_view(params@) =~= before + strings_view(ev));
    decl_of(ret_type.as_str(), ffi_name, &params)
}

/// Formats the C declaration of a trait dispatch or trait impl method.
pub fn format_dispatch_declaration(ffi_name: &str, handle_c_name: &str, m: &CMethod, blessed: &BlessedTypes) -> (r: String)
    ensures
        r@ == dispatch_declaration(ffi_name@, handle_c_name@, *m, *blessed),
{
    let mut params: Vec<String> = Vec::new();
    let mut h = owned(handle_c_name);
    push_str(&mut h, " handle");
    params.push(h);
    assert(strings_view(params@) =~= seq![handle_c_name@ + " handle"@]);
    format_c_params(m.params.as_slice(), &mut params);
    let (ret_type, extra) = format_return_and_out_params(&m.ret, m.returns_builder_self, blessed);
    let ghost before = strings_view(params@);
    let ghost ev = extra@;
    let mut extra = extra;
    params.append(&mut extra);
    assert(strings_view(params@) =~= before + strings_view(ev));
    decl_of(ret_type.as_str(), ffi_name, &params)
}

// ---------------------------------------------------------------------------
// Sections of declarations
// ---------------------------------------------------------------------------

/// An exported type: its methods and its destroy function.
pub struct ExportedTypeDecl {
    pub name: String,
    /// The C handle type.
    pub c_name: String,
    pub destroy_ffi_name: String,
    /// Some method consumes a builder by value.
    pub is_builder_type: bool,
    pub methods: Vec<CMethod>,
}

/// The declaration of an exported method after its doc comment; nothing
/// for a trait method.
pub open spec fn type_method_text(m: CMethod, c_name: Seq<char>, is_builder_type: bool, blessed: BlessedTypes) -> Seq<char> {
    match m.context {
        MethodContext::Exportable(ffi_name) => doc_comment_text(strings_view(m.doc@)) + c_declaration(
            ffi_name@,
            c_name,
            m,
            is_builder_type,
            blessed,
        ) + "\n"@,
        MethodContext::Trait { .. } => Seq::empty(),
    }
}

/// The declarations of the exported methods, in order.
pub open spec fn type_methods_text(ms: Seq<CMethod>, c_name: Seq<char>, is_builder_type: bool, blessed: BlessedTypes) -> Seq<char>
    decreases ms.len(),
{
    if ms.len() == 0 {
        Seq::empty()
    } else {
        type_methods_text(ms.drop_last(), c_name, is_builder_type, blessed) + type_method_text(
            ms.last(),
            c_name,
            is_builder_type,
            blessed,
        )
    }
}

fn push_type_method(out: &mut String, m: &CMethod, c_name: &str, is_builder_type: bool, blessed: &BlessedTypes)
    ensures
        final(out)@ == old(out)@ + type_method_text(*m, c_name@, is_builder_type, *blessed),
{
    match &m.context {
        MethodContext::Exportable(ffi_name) => {
            emit_doc_comment(out, m.doc.as_slice());
            let decl = format_c_declaration(ffi_name.as_str(), c_name, m, is_builder_type, blessed);
            push_str(out, decl.as_str());
            push_str(out, "\n");
        },
        MethodContext::Trait { .. } => {},
    }
    assert(out@ =~= old(out)@ + type_method_text(*m, c_name@, is_builder_type, *blessed));
}

/// `void destroy(Handle handle);\n`.
pub open spec fn destroy_decl(destroy_ffi_name: Seq<char>, c_name: Seq<char>) -> Seq<char> {
    "void "@ + destroy_ffi_name + "("@ + c_name + " handle);\n"@
}

/// The section of an exported type.
pub open spec fn type_section_text(ty: ExportedTypeDecl, blessed: BlessedTypes) -> Seq<char> {
    section_header_text(ty.name@) + type_methods_text(ty.methods@, ty.c_name@, ty.is_builder_type, blessed)
        + destroy_decl(ty.destroy_ffi_name@, ty.c_name@)
}

fn push_destroy_decl(out: &mut String, destroy_ffi_name: &str, c_name: &str)
    ensures
        final(out)@ == old(out)@ + destroy_decl(destroy_ffi_name@, c_name@),
{
    push_str(out, "void ");
    push_str(out, destroy_ffi_name);
    push_str(out, "(");
    push_str(out, c_name);
    push_str(out, " handle);\n");
    assert(out@ =~= old(out)@ + destroy_decl(destroy_ffi_name@, c_name@));
}

/// Appends the section of an exported type.
pub fn emit_type_section(out: &mut String, ty: &ExportedTypeDecl, blessed: &BlessedTypes)
    ensures
        final(out)@ == old(out)@ + type_section_text(*ty, *blessed),
{
    emit_section_header(out, ty.name.as_str());
    let ghost o1 = out@;
    let ghost ms = ty.methods@;
    let mut i: usize = 0;
    assert(ms.take(0) =~= Seq::<CMethod>::empty());
    while i < ty.methods.len()
        invariant
            i <= ms.len(),
            ms == ty.methods@,
            out@ == o1 + type_methods_text(ms.take(i as int), ty.c_name@, ty.is_builder_type, *blessed),
        decreases ms.len() - i,
    {
        let m = &ty.methods[i];
        push_type_method(out, m, ty.c_name.as_str(), ty.is_builder_type, blessed);
        i = i + 1;
        assert(ms.take(i as int).drop_last() =~= ms.take(i - 1));
        assert(ms.take(i as int).last() == *m);
        assert(out@ =~= o1 + type_methods_text(ms.take(i as int), ty.c_name@, ty.is_builder_type, *blessed));
    }
    assert(ms.take(ms.len() as int) =~= ms);
    push_destroy_decl(out, ty.destroy_ffi_name.as_str(), ty.c_name.as_str());
}

/// The declaration of one trait method for dispatch through
/// `handle_c_name`, after its doc comment when `with_docs`; nothing for a
/// method that is not a trait method.
pub open spec fn trait_method_text(m: CMethod, handle_c_name: Seq<char>, with_docs: bool, blessed: BlessedTypes) -> Seq<char> {
    match m.context {
        MethodContext::Trait { index, ffi_name } => (if with_docs {
            doc_comment_text(strings_view(m.doc@))
        } else {
            Seq::empty()
        }) + dispatch_declaration(ffi_name@, handle_c_name, m, blessed) + "\n"@,
        MethodContext::Exportable(_) => Seq::empty(),
    }
}

/// The declarations of trait methods, in order.
pub open spec fn trait_methods_text(ms: Seq<CMethod>, handle_c_name: Seq<char>, with_docs: bool, blessed: BlessedTypes) -> Seq<char>
    decreases ms.len(),
{
    if ms.len() == 0 {
        Seq::empty()
    } else {
        trait_methods_text(ms.drop_last(), handle_c_name, with_docs, blessed) + trait_method_text(
            ms.last(),
            handle_c_name,
            with_docs,
            blessed,
        )
    }
}

fn push_trait_method(out: &mut String, m: &CMethod, handle_c_name: &str, with_docs: bool, blessed: &BlessedTypes)
    ensures
        final(out)@ == old(out)@ + trait_method_text(*m, handle_c_name@, with_docs, *blessed),
{
    match &m.context {
        MethodContext::Trait { index: _, ffi_name } => {
            if with_docs {
                emit_doc_comment(out, m.doc.as_slice());
            }
            let decl = format_dispatch_declaration(ffi_name.as_str(), handle_c_name, m, blessed);
            push_str(out, decl.as_str());
            push_str(out, "\n");
        },
        MethodContext::Exportable(_) => {},
    }
    assert(out@ =~= old(out)@ + trait_method_text(*m, handle_c_name@, with_docs, *blessed));
}

fn push_trait_methods(out: &mut String, ms: &[CMethod], handle_c_name: &str, with_docs: bool, blessed: &BlessedTypes)
    ensures
        final(out)@ == old(out)@ + trait_methods_text(ms@, handle_c_name@, with_docs, *blessed),
{
    let ghost o1 = out@;
    let mut i: usize = 0;
    assert(ms@.take(0) =~= Seq::<CMethod>::empty());
    while i < ms.len()
        invariant
            i <= ms@.len(),
            out@ == o1 + trait_methods_text(ms@.take(i as int), handle_c_name@, with_docs, *blessed),
        decreases ms@.len() - i,
    {
        let m = &ms[i];
        push_trait_method(out, m, handle_c_name, with_docs, blessed);
        i = i + 1;
        assert(ms@.take(i as int).drop_last() =~= ms@.take(i - 1));
        assert(ms@.take(i as int).last() == *m);
        assert(out@ =~= o1 + trait_methods_text(ms@.take(i as int), handle_c_name@, with_docs, *blessed));
    }
    assert(ms@.take(ms@.len() as int) =~= ms@);
}

/// A trait that C code can implement through a vtable.
pub struct VtableTrait {
    pub name: String,
    /// The C handle type of the trait.
    pub handle_c_name: String,
    pub destroy_ffi_name: String,
    /// The macro holding the trait's type tag.
    pub type_tag_constant: String,
    pub vtable_struct_c_name: String,
    /// All methods, the trait's own first, then those of its supertraits.
    pub methods: Vec<CMethod>,
    /// How many of `methods` belong to the trait itself.
    pub own_method_count: usize,
    /// The highest vtable slot in use or retired.
    pub max_vtable_slot: usize,
}

/// The section of self-dispatching functions of a trait: declarations for
/// its own methods, then its destroy function.
pub open spec fn dispatch_section_text(tr: VtableTrait, blessed: BlessedTypes) -> Seq<char> {
    let own = if tr.own_method_count <= tr.methods@.len() {
        tr.own_method_count as int
    } else {
        tr.methods@.len() as int
    };
    section_header_text(tr.name@ + " (dispatch)"@) + trait_methods_text(tr.methods@.take(own), tr.handle_c_name@, true, blessed)
        + destroy_decl(tr.destroy_ffi_name@, tr.handle_c_name@)
}

/// Appends the self-dispatch section of a trait.
pub fn emit_dispatch_section(out: &mut String, tr: &VtableTrait, blessed: &BlessedTypes)
    ensures
        final(out)@ == old(out)@ + dispatch_section_text(*tr, *blessed),
{
    let mut title = tr.name.clone();
    push_str(&mut title, " (dispatch)");
    emit_section_header(out, title.as_str());
    let own: usize = if tr.own_method_count <= tr.methods.len() {
        tr.own_method_count
    } else {
        tr.methods.len()
    };
    let own_methods = take_methods(&tr.methods, own);
    push_trait_methods(out, own_methods, tr.handle_c_name.as_str(), true, blessed);
    push_destroy_decl(out, tr.destroy_ffi_name.as_str(), tr.handle_c_name.as_str());
}

/// The first `n` methods.
fn take_methods(ms: &Vec<CMethod>, n: usize) -> (r: &[CMethod])
    requires
        n <= ms@.len(),
    ensures
        r@ == ms@.take(n as int),
{
    let s = ms.as_slice();
    vstd::slice::slice_subrange(s, 0, n)
}

/// An implementation of a trait by an exported type.
pub struct TraitImplDecl {
    pub trait_name: String,
    pub struct_name: String,
    /// The C handle type of the implementing type.
    pub struct_c_name: String,
    pub methods: Vec<CMethod>,
}

/// The bridge functions of a trait impl: one declaration per trait method.
pub open spec fn trait_impl_section_text(ti: TraitImplDecl, blessed: BlessedTypes) -> Seq<char> {
    trait_methods_text(ti.methods@, ti.struct_c_name@, false, blessed)
}

/// Appends the bridge function declarations of a trait impl.
pub fn emit_trait_impl_section(out: &mut String, ti: &TraitImplDecl, blessed: &BlessedTypes)
    ensures
        final(out)@ == old(out)@ + trait_impl_section_text(*ti, *blessed),
{
    push_trait_methods(out, ti.methods.as_slice(), ti.struct_c_name.as_str(), false, blessed);
}

/// A free function.
pub struct FreeFunctionDecl {
    pub name: String,
    pub ffi_name: String,
    pub doc: Vec<String>,
    pub params: Vec<CParam>,
    pub ret: CReturn,
}

/// The declaration of a free function (`void` for no parameters), after
/// its doc comment.
pub open spec fn free_function_text(f: FreeFunctionDecl, blessed: BlessedTypes) -> Seq<char> {
    let rp = return_parts(f.ret, false, blessed.error_c@, blessed.result_c@);
    let params = param_decls(f.params@) + rp.1;
    doc_comment_text(strings_view(f.doc@)) + rp.0 + " "@ + f.ffi_name@ + "("@ + (if params.len() == 0 {
        "void"@
    } else {
        join_spec(params, ", "@)
    }) + ");\n"@
}

/// The declarations of free functions, in order.
pub open spec fn free_functions_text(fs: Seq<FreeFunctionDecl>, blessed: BlessedTypes) -> Seq<char>
    decreases fs.len(),
{
    if fs.len() == 0 {
        Seq::empty()
    } else {
        free_functions_text(fs.drop_last(), blessed) + free_function_text(fs.last(), blessed)
    }
}

fn push_free_function(out: &mut String, f: &FreeFunctionDecl, blessed: &BlessedTypes)
    ensures
        final(out)@ == old(out)@ + free_function_text(*f, *blessed),
{
    let ghost o0 = out@;
    emit_doc_comment(out, f.doc.as_slice());
    let mut params: Vec<String> = Vec::new();
    assert(strings_view(params@) =~= Seq::<Seq<char>>::empty());
    format_c_params(f.params.as_slice(), &mut params);
    let (ret_type, extra) = format_return_and_out_params(&f.ret, false, blessed);
    let ghost before = strings_view(params@);
    let ghost ev = extra@;
    let mut extra = extra;
    params.append(&mut extra);
    assert(strings_view(params@) =~= before + strings_view(ev));
    let ghost o1 = out@;
    push_str(out, ret_type.as_str());
    push_str(out, " ");
    push_str(out, f.ffi_name.as_str());
    push_str(out, "(");
    if params.len() == 0 {
        push_str(out, "void");
    } else {
        let joined = join_strings(params.as_slice(), ", ");
        push_str(out, joined.as_str());
    }
    push_str(out, ");\n");
    assert(out@ =~= o0 + free_function_text(*f, *blessed));
}

/// Appends the section of free functions.
pub fn emit_free_functions(out: &mut String, functions: &[FreeFunctionDecl], blessed: &BlessedTypes)
    ensures
        final(out)@ == old(out)@ + section_header_text("Free functions"@) + free_functions_text(functions@, *blessed),
{
    emit_section_header(out, "Free functions");
    let ghost o1 = out@;
    let mut i: usize = 0;
    assert(functions@.take(0) =~= Seq::<FreeFunctionDecl>::empty());
    while i < functions.len()
        invariant
            i <= functions@.len(),
            out@ == o1 + free_functions_text(functions@.take(i as int), *blessed),
        decreases functions@.len() - i,
    {
        push_free_function(out, &functions[i], blessed);
        i = i + 1;
        assert(functions@.take(i as int).drop_last() =~= functions@.take(i - 1));
        assert(out@ =~= o1 + free_functions_text(functions@.take(i as int), *blessed));
    }
    assert(functions@.take(functions@.len() as int) =~= functions@);
}

// ---------------------------------------------------------------------------
// Vtable structs
// ---------------------------------------------------------------------------

/// The position in `ms` of the method occupying vtable slot `slot`: the
/// last trait method with that index, if any.
pub open spec fn slot_index(ms: Seq<CMethod>, slot: int) -> Option<int>
    decreases ms.len(),
{
    if ms.len() == 0 {
        None
    } else if (ms.last().context matches MethodContext::Trait { index, .. } && index == slot) {
        Some(ms.len() - 1)
    } else {
        slot_index(ms.drop_last(), slot)
    }
}

/// The function pointer field of a method in a vtable struct.
pub open spec fn vtable_field(m: CMethod, blessed: BlessedTypes) -> Seq<char> {
    let rp = return_parts(m.ret, false, blessed.error_c@, blessed.result_c@);
    "    "@ + rp.0 + " (*"@ + m.name@ + ")("@ + join_spec(
        seq!["void* self_data"@] + param_decls(m.params@) + rp.1,
        ", "@,
    ) + ");\n"@
}

/// The placeholder field of a slot that no method occupies.
pub open spec fn reserved_field(slot: nat) -> Seq<char> {
    "    void (*__reserved_"@ + decimal(slot) + ")(void); /* reserved slot "@ + decimal(slot) + " */\n"@
}

/// The field of one vtable slot.
pub open spec fn slot_field(ms: Seq<CMethod>, slot: nat, blessed: BlessedTypes) -> Seq<char> {
    match slot_index(ms, slot as int) {
        Some(k) => vtable_field(ms[k], blessed),
        None => reserved_field(slot),
    }
}

/// The fields of slots `0..n`.
pub open spec fn slot_fields(ms: Seq<CMethod>, n: nat, blessed: BlessedTypes) -> Seq<char>
    decreases n,
{
    if n == 0 {
        Seq::empty()
    } else {
        slot_fields(ms, (n - 1) as nat, blessed) + slot_field(ms, (n - 1) as nat, blessed)
    }
}

/// The vtable section of a trait: the type tag macro (when the trait has a
/// tag), then the vtable struct with `drop` first and one field per slot
/// `0..=max_vtable_slot`.
pub open spec fn vtable_section_text(tr: VtableTrait, type_tag: Option<u32>, blessed: BlessedTypes) -> Seq<char> {
    section_header_text(tr.vtable_struct_c_name@) + match type_tag {
        Some(t) => "#define "@ + tr.type_tag_constant@ + " "@ + decimal(t as nat) + "\n\n"@,
        None => Seq::empty(),
    } + "typedef struct {\n"@ + "    void (*drop)(void* self_data);\n"@ + slot_fields(
        tr.methods@,
        (tr.max_vtable_slot + 1) as nat,
        blessed,
    ) + "} "@ + tr.vtable_struct_c_name@ + ";\n"@
}

/// The position of the method occupying a vtable slot.
fn find_slot(ms: &Vec<CMethod>, slot: usize) -> (r: Option<usize>)
    ensures
        match r {
            Some(k) => k < ms@.len() && slot_index(ms@, slot as int) == Some(k as int),
            None => slot_index(ms@, slot as int) is None,
        },
{
    let mut found: Option<usize> = None;
    let mut i: usize = 0;
    assert(ms@.take(0) =~= Seq::<CMethod>::empty());
    while i < ms.len()
        invariant
            i <= ms@.len(),
            match found {
                Some(k) => k < i && slot_index(ms@.take(i as int), slot as int) == Some(k as int),
                None => slot_index(ms@.take(i as int), slot as int) is None,
            },
        decreases ms@.len() - i,
    {
        let hit = match &ms[i].context {
            MethodContext::Trait { index, ffi_name: _ } => *index == slot,
            MethodContext::Exportable(_) => false,
        };
        if hit {
            found = Some(i);
        }
        i = i + 1;
        assert(ms@.take(i as int).drop_last() =~= ms@.take(i - 1));
        assert(ms@.take(i as int).last() == ms@[i - 1]);
    }
    assert(ms@.take(ms@.len() as int) =~= ms@);
    found
}

fn push_vtable_field(out: &mut String, m: &CMethod, blessed: &BlessedTypes)
    ensures
        final(out)@ == old(out)@ + vtable_field(*m, *blessed),
{
    let mut params: Vec<String> = Vec::new();
    params.push(owned("void* self_data"));
    assert(strings_view(params@) =~= seq!["void* self_data"@]);
    format_c_params(m.params.as_slice(), &mut params);
    let (ret_type, extra) = format_return_and_out_params(&m.ret, false, blessed);
    let ghost before = strings_view(params@);
    let ghost ev = extra@;
    let mut extra = extra;
    params.append(&mut extra);
    assert(strings_view(params@) =~= before + strings_view(ev));
    let joined = join_strings(params.as_slice(), ", ");
    push_str(out, "    ");
    push_str(out, ret_type.as_str());
    push_str(out, " (*");
    push_str(out, m.name.as_str());
    push_str(out, ")(");
    push_str(out, joined.as_str());
    push_str(out, ");\n");
    assert(out@ =~= old(out)@ + vtable_field(*m, *blessed));
}

fn push_reserved_field(out: &mut String, slot: usize)
    ensures
        final(out)@ == old(out)@ + reserved_field(slot as nat),
{
    push_str(out, "    void (*__reserved_");
    push_decimal(out, slot as u64);
    push_str(out, ")(void); /* reserved slot ");
    push_decimal(out, slot as u64);
    push_str(out, " */\n");
    assert(out@ =~= old(out)@ + reserved_field(slot as nat));
}

/// Appends the vtable section of a trait.
pub fn emit_vtable_section(out: &mut String, tr: &VtableTrait, type_tag: Option<u32>, blessed: &BlessedTypes)
    requires
        tr.max_vtable_slot < usize::MAX,
    ensures
        final(out)@ == old(out)@ + vtable_section_text(*tr, type_tag, *blessed),
{
    let ghost o0 = out@;
    emit_section_header(out, tr.vtable_struct_c_name.as_str());
    match type_tag {
        Some(t) => {
            push_str(out, "#define ");
            push_str(out, tr.type_tag_constant.as_str());
            push_str(out, " ");
            push_decimal(out, t as u64);
            push_str(out, "\n\n");
        },
        None => {},
    }
    push_str(out, "typedef struct {\n");
    push_str(out, "    void (*drop)(void* self_data);\n");
    let ghost o1 = out@;
    let ghost ms = tr.methods@;
    let mut slot: usize = 0;
    while slot <= tr.max_vtable_slot
        invariant
            slot <= tr.max_vtable_slot + 1,
            tr.max_vtable_slot < usize::MAX,
            ms == tr.methods@,
            out@ == o1 + slot_fields(ms, slot as nat, *blessed),
        decreases tr.max_vtable_slot + 1 - slot,
    {
        match find_slot(&tr.methods, slot) {
            Some(k) => {
                push_vtable_field(out, &tr.methods[k], blessed);
            },
            None => {
                push_reserved_field(out, slot);
            },
        }
        slot = slot + 1;
    }
    push_str(out, "} ");
    push_str(out, tr.vtable_struct_c_name.as_str());
    push_str(out, ";\n");
    assert(out@ =~= o0 + vtable_section_text(*tr, type_tag, *blessed));
}

// ---------------------------------------------------------------------------
// Shared primitive types
// ---------------------------------------------------------------------------

/// The C names of the primitive types shared by the libraries that use the
/// same primitives prefix.
pub struct PrimitiveTypes {
    pub result_c: String,
    pub str_c: String,
    pub bytes_c: String,
    pub path_c: Option<String>,
    pub vtable_handle_c: String,
}

/// The guard macro of the primitive types, e.g. `KRUN_PRIMITIVES_DEFINED`.
pub open spec fn primitives_guard(prim_upper_pfx: Seq<char>) -> Seq<char> {
    prim_upper_pfx + "PRIMITIVES_DEFINED"@
}

/// The typedef of the path type, if the library has one.
pub open spec fn path_typedef_text(t: PrimitiveTypes) -> Seq<char> {
    match t.path_c {
        Some(path_c) => "/* OS path \u{2014} arbitrary bytes on Unix, not necessarily UTF-8 */\n"@
            + "typedef "@ + t.bytes_c@ + " "@ + path_c@ + ";\n\n"@,
        None => Seq::empty(),
    }
}

/// The result code, string and byte-slice typedefs.
pub open spec fn primitive_structs_text(p: Seq<char>, t: PrimitiveTypes) -> Seq<char> {
    "typedef uint64_t "@ + t.result_c@ + ";\n"@ + "#define "@ + p + "RESULT_SUCCESS 0\n\n"@
        + "/* Caller must ensure data is valid UTF-8 */\n"@ + "typedef struct {\n"@
        + "    const char* data;\n"@ + "    size_t len;\n"@ + "} "@ + t.str_c@ + ";\n\n"@
        + "typedef struct {\n"@ + "    const uint8_t* data;\n"@ + "    size_t len;\n"@ + "} "@
        + t.bytes_c@ + ";\n\n"@ + path_typedef_text(t)
}

/// The `STR` and `BYTES` constructor macros.
pub open spec fn primitive_macros_text(p: Seq<char>, t: PrimitiveTypes) -> Seq<char> {
    "#define "@ + p + "STR(s) (("@ + t.str_c@ + "){ .data = (s), .len = (s) ? strlen(s) : 0 })\n"@
        + "#if defined(__GNUC__)\n"@ + "#define "@ + p + "BYTES(arr) ({ \\\n"@
        + "    _Static_assert( \\\n"@
        + "        !__builtin_types_compatible_p(typeof(arr), typeof(&(arr)[0])), \\\n"@
        + "        \""@ + p + "BYTES() requires an array, not a pointer\"); \\\n"@ + "    (("@
        + t.bytes_c@ + "){ .data = (const uint8_t*)(arr), .len = sizeof(arr) }); \\\n"@ + "})\n"@
        + "#else\n"@ + "#define "@ + p + "BYTES(arr) \\\n"@ + "    (("@ + t.bytes_c@
        + "){ .data = (const uint8_t*)(arr), .len = sizeof(arr) })\n"@ + "#endif\n\n"@
}

/// The vtable handle struct and its constructor macro.
pub open spec fn vtable_handle_text(p: Seq<char>, t: PrimitiveTypes) -> Seq<char> {
    "/**\n"@ + " * Stack-allocated temporary handle for passing vtable-based objects.\n"@
        + " * Only valid for the duration of the call \u{2014} the callee borrows, not owns.\n"@
        + " */\n"@ + "typedef struct {\n"@ + "    uint32_t type_tag;\n"@ + "    uint32_t metadata;\n"@
        + "    const void *vtable_ptr;\n"@ + "    const void *user_data;\n"@
        + "    uint16_t vtable_size;\n"@ + "} "@ + t.vtable_handle_c@ + ";\n\n"@ + "#define "@ + p
        + "VTABLE_HANDLE(tag, vtable, self_data) \\\n"@ + "    (("@ + t.vtable_handle_c@
        + "){ .type_tag = (tag), .metadata = 0, \\\n"@
        + "      .vtable_ptr = &(vtable), .user_data = (self_data), \\\n"@
        + "      .vtable_size = sizeof(vtable) })\n\n"@
}

/// The shared types: the primitive types under one guard keyed to the
/// primitives prefix (so that several headers can share them), then the
/// library's own `str_free`.
pub open spec fn shared_types_text(prim_upper_pfx: Seq<char>, fn_pfx: Seq<char>, t: PrimitiveTypes) -> Seq<char> {
    "#ifndef "@ + primitives_guard(prim_upper_pfx) + "\n"@ + "#define "@ + primitives_guard(prim_upper_pfx)
        + "\n\n"@ + primitive_structs_text(prim_upper_pfx, t) + primitive_macros_text(prim_upper_pfx, t)
        + vtable_handle_text(prim_upper_pfx, t) + "#endif /* "@ + primitives_guard(prim_upper_pfx)
        + " */\n\n"@ + "/* Free an owned string returned by the library */\n"@ + "void "@ + fn_pfx
        + "str_free("@ + t.str_c@ + " s);\n\n"@
}

fn path_typedef(t: &PrimitiveTypes) -> (r: String)
    ensures
        r@ == path_typedef_text(*t),
{
    match &t.path_c {
        Some(path_c) => {
            let mut s = owned("/* OS path \u{2014} arbitrary bytes on Unix, not necessarily UTF-8 */\n");
            push_str(&mut s, "typedef ");
            push_str(&mut s, t.bytes_c.as_str());
            push_str(&mut s, " ");
            push_str(&mut s, path_c.as_str());
            push_str(&mut s, ";\n\n");
            s
        },
        None => String::new(),
    }
}

fn primitive_structs(p: &str, t: &PrimitiveTypes) -> (r: String)
    ensures
        r@ == primitive_structs_text(p@, *t),
{
    let mut s = owned("typedef uint64_t ");
    push_str(&mut s, t.result_c.as_str());
    push_str(&mut s, ";\n");
    push_str(&mut s, "#define ");
    push_str(&mut s, p);
    push_str(&mut s, "RESULT_SUCCESS 0\n\n");
    push_str(&mut s, "/* Caller must ensure data is valid UTF-8 */\n");
    push_str(&mut s, "typedef struct {\n");
    push_str(&mut s, "    const char* data;\n");
    push_str(&mut s, "    size_t len;\n");
    push_str(&mut s, "} ");
    push_str(&mut s, t.str_c.as_str());
    push_str(&mut s, ";\n\n");
    push_str(&mut s, "typedef struct {\n");
    push_str(&mut s, "    const uint8_t* data;\n");
    push_str(&mut s, "    size_t len;\n");
    push_str(&mut s, "} ");
    push_str(&mut s, t.bytes_c.as_str());
    push_str(&mut s, ";\n\n");
    let pt = path_typedef(t);
    push_str(&mut s, pt.as_str());
    s
}

fn primitive_macros(p: &str, t: &PrimitiveTypes) -> (r: String)
    ensures
        r@ == primitive_macros_text(p@, *t),
{
    let mut s = owned("#define ");
    push_str(&mut s, p);
    push_str(&mut s, "STR(s) ((");
    push_str(&mut s, t.str_c.as_str());
    push_str(&mut s, "){ .data = (s), .len = (s) ? strlen(s) : 0 })\n");
    push_str(&mut s, "#if defined(__GNUC__)\n");
    push_str(&mut s, "#define ");
    push_str(&mut s, p);
    push_str(&mut s, "BYTES(arr) ({ \\\n");
    push_str(&mut s, "    _Static_assert( \\\n");
    push_str(&mut s, "        !__builtin_types_compatible_p(typeof(arr), typeof(&(arr)[0])), \\\n");
    push_str(&mut s, "        \"");
    push_str(&mut s, p);
    push_str(&mut s, "BYTES() requires an array, not a pointer\"); \\\n");
    push_str(&mut s, "    ((");
    push_str(&mut s, t.bytes_c.as_str());
    push_str(&mut s, "){ .data = (const uint8_t*)(arr), .len = sizeof(arr) }); \\\n");
    push_str(&mut s, "})\n");
    push_str(&mut s, "#else\n");
    push_str(&mut s, "#define ");
    push_str(&mut s, p);
    push_str(&mut s, "BYTES(arr) \\\n");
    push_str(&mut s, "    ((");
    push_str(&mut s, t.bytes_c.as_str());
    push_str(&mut s, "){ .data = (const uint8_t*)(arr), .len = sizeof(arr) })\n");
    push_str(&mut s, "#endif\n\n");
    s
}

fn vtable_handle(p: &str, t: &PrimitiveTypes) -> (r: String)
    ensures
        r@ == vtable_handle_text(p@, *t),
{
    let mut s = owned("/**\n");
    push_str(&mut s, " * Stack-allocated temporary handle for passing vtable-based objects.\n");
    push_str(&mut s, " * Only valid for the duration of the call \u{2014} the callee borrows, not owns.\n");
    push_str(&mut s, " */\n");
    push_str(&mut s, "typedef struct {\n");
    push_str(&mut s, "    uint32_t type_tag;\n");
    push_str(&mut s, "    uint32_t metadata;\n");
    push_str(&mut s, "    const void *vtable_ptr;\n");
    push_str(&mut s, "    const void *user_data;\n");
    push_str(&mut s, "    uint16_t vtable_size;\n");
    push_str(&mut s, "} ");
    push_str(&mut s, t.vtable_handle_c.as_str());
    push_str(&mut s, ";\n\n");
    push_str(&mut s, "#define ");
    push_str(&mut s, p);
    push_str(&mut s, "VTABLE_HANDLE(tag, vtable, self_data) \\\n");
    push_str(&mut s, "    ((");
    push_str(&mut s, t.vtable_handle_c.as_str());
    push_str(&mut s, "){ .type_tag = (tag), .metadata = 0, \\\n");
    push_str(&mut s, "      .vtable_ptr = &(vtable), .user_data = (self_data), \\\n");
    push_str(&mut s, "      .vtable_size = sizeof(vtable) })\n\n");
    s
}

/// Appends the shared primitive type definitions.
///
/// `prim_upper_pfx` is derived from the primitives prefix (e.g. `KRUN_`);
/// `fn_pfx` from the library prefix (e.g. `krun_init_`): `str_free` goes
/// through the library's own allocator and must not share the primitives
/// prefix.
pub fn emit_shared_types(out: &mut String, prim_upper_pfx: &str, fn_pfx: &str, t: &PrimitiveTypes)
    ensures
        final(out)@ == old(out)@ + shared_types_text(prim_upper_pfx@, fn_pfx@, *t),
{
    let mut guard = owned(prim_upper_pfx);
    push_str(&mut guard, "PRIMITIVES_DEFINED");
    let structs = primitive_structs(prim_upper_pfx, t);
    let macros = primitive_macros(prim_upper_pfx, t);
    let handle = vtable_handle(prim_upper_pfx, t);
    let mut s = owned("#ifndef ");
    push_str(&mut s, guard.as_str());
    push_str(&mut s, "\n");
    push_str(&mut s, "#define ");
    push_str(&mut s, guard.as_str());
    push_str(&mut s, "\n\n");
    push_str(&mut s, structs.as_str());
    push_str(&mut s, macros.as_str());
    push_str(&mut s, handle.as_str());
    push_str(&mut s, "#endif /* ");
    push_str(&mut s, guard.as_str());
    push_str(&mut s, " */\n\n");
    push_str(&mut s, "/* Free an owned string returned by the library */\n");
    push_str(&mut s, "void ");
    push_str(&mut s, fn_pfx);
    push_str(&mut s, "str_free(");
    push_str(&mut s, t.str_c.as_str());
    push_str(&mut s, " s);\n\n");
    push_str(out, s.as_str());
}

// ---------------------------------------------------------------------------
// The default header guard
// ---------------------------------------------------------------------------

/// Every `-` replaced by `_`.
pub open spec fn dashes_to_underscores(s: Seq<char>) -> Seq<char> {
    s.map_values(|c: char| if c == '-' { '_' } else { c })
}

/// The header guard for a file stem: the stem in ASCII uppercase with `-`
/// replaced by `_`, followed by `_H`; `FFIER_H` when there is no stem.
pub open spec fn guard_for_stem(stem: Option<Seq<char>>) -> Seq<char> {
    let st = match stem {
        Some(s) => s,
        None => "FFIER"@,
    };
    dashes_to_underscores(ascii_upper(st)) + "_H"@
}

/// The header guard for a file stem (`ffier-ft` → `FFIER_FT_H`).
pub fn guard_from_stem(stem: Option<&str>) -> (r: String)
    ensures
        r@ == guard_for_stem(match stem {
            Some(s) => Some(s@),
            None => None,
        }),
{
    let st = match stem {
        Some(s) => s,
        None => "FFIER",
    };
    let upper = to_ascii_uppercase(st);
    let v = chars_of(upper.as_str());
    let mut out = String::new();
    let mut i: usize = 0;
    while i < v.len()
        invariant
            v@ == ascii_upper(st@),
            i <= v@.len(),
            out@ == dashes_to_underscores(v@.take(i as int)),
        decreases v@.len() - i,
    {
        let c = if v[i] == '-' {
            '_'
        } else {
            v[i]
        };
        push_char(&mut out, c);
        i = i + 1;
        assert(out@ =~= dashes_to_underscores(v@.take(i as int)));
    }
    assert(v@.take(v@.len() as int) =~= v@);
    push_str(&mut out, "_H");
    out
}

/// A plain file name: non-empty, without `/`, `\\` or `:`, and neither
/// `.` nor `..`. Every platform reads it as one normal path component, so
/// it is its own file name.
pub open spec fn plain_file_name(p: Seq<char>) -> bool {
    &&& p.len() > 0
    &&& !p.contains('/')
    &&& !p.contains('\\')
    &&& !p.contains(':')
    &&& p != "."@
    &&& p != ".."@
}

/// The position of the last `.` of a name.
pub open spec fn last_dot(p: Seq<char>) -> Option<int>
    decreases p.len(),
{
    if p.len() == 0 {
        None
    } else if p.last() == '.' {
        Some(p.len() - 1)
    } else {
        last_dot(p.drop_last())
    }
}

/// The stem of a file name, as `Path::file_stem` documents it: the whole
/// name when it has no `.` or only a leading one, else the part before the
/// last `.`.
pub open spec fn file_stem_spec(name: Seq<char>) -> Seq<char> {
    match last_dot(name) {
        Some(k) => if k > 0 {
            name.take(k)
        } else {
            name
        },
        None => name,
    }
}

/// The position of the last `/` of a path.
pub open spec fn last_slash(p: Seq<char>) -> Option<int>
    decreases p.len(),
{
    if p.len() == 0 {
        None
    } else if p.last() == '/' {
        Some(p.len() - 1)
    } else {
        last_slash(p.drop_last())
    }
}

/// A relative directory part: non-empty, without `\\` or `:` (so no
/// Windows prefix or separator other than `/`), and not starting with `/`
/// (so neither a root nor a Windows UNC prefix).
pub open spec fn relative_dir(d: Seq<char>) -> bool {
    &&& d.len() > 0
    &&& !d.contains('\\')
    &&& !d.contains(':')
    &&& d[0] != '/'
}

/// The file name of a path whose last component every platform reads the
/// same way: a plain file name on its own, or a relative directory part,
/// `/` and a plain file name (`/` separates components on every platform).
pub open spec fn known_file_name(p: Seq<char>) -> Option<Seq<char>> {
    if plain_file_name(p) {
        Some(p)
    } else {
        match last_slash(p) {
            Some(k) => if relative_dir(p.take(k)) && plain_file_name(p.skip(k + 1)) {
                Some(p.skip(k + 1))
            } else {
                None
            },
            None => None,
        }
    }
}

/// `Path::file_stem` of a path given as a string, as a `String`. How a
/// path splits into components depends on the platform; what is stated is
/// the case every platform agrees on, a path whose file name is known as
/// `known_file_name` describes, whose stem is as `Path::file_stem`
/// documents. Other paths (absolute ones, those with `\\` or `:`, those
/// ending in `/`, `.` or `..`) are left unsaid.
#[verifier::external_body]
fn path_file_stem(path: &str) -> (r: Option<String>)
    ensures
        known_file_name(path@) matches Some(n) ==> (r is Some && r.unwrap()@ == file_stem_spec(n)),
{
    std::path::Path::new(path).file_stem().and_then(|s| s.to_str()).map(|s| s.to_string())
}

/// The header guard derived from a schema file's path
/// (`target/ffier-ft.json` → `FFIER_FT_H`): the guard of the file's stem,
/// or `FFIER_H` when it has none.
pub fn default_guard(path: &str) -> (r: String)
    ensures
        exists|stem: Option<Seq<char>>| r@ == guard_for_stem(stem),
        known_file_name(path@) matches Some(n) ==> r@ == guard_for_stem(Some(file_stem_spec(n))),
{
    let stem = path_file_stem(path);
    let r = match &stem {
        Some(s) => guard_from_stem(Some(s.as_str())),
        None => guard_from_stem(None),
    };
    proof {
        let st: Option<Seq<char>> = match stem {
            Some(s) => Some(s@),
            None => None,
        };
        assert(r@ == guard_for_stem(st));
    }
    r
}

// ---------------------------------------------------------------------------
// The whole header
// ---------------------------------------------------------------------------

/// An error type with its C handle type and type tag.
pub struct ErrorSection {
    pub decl: ErrorTypeDecl,
    pub c_name: String,
    pub type_tag: u32,
}

/// A trait implementable from C with its type tag, if it has one.
pub struct TraitSection {
    pub vtable: VtableTrait,
    pub type_tag: Option<u32>,
}

/// A library's schema with its C names resolved.
pub struct HeaderLibrary {
    /// The library prefix, e.g. `ft`.
    pub prefix: String,
    /// The prefix of the shared primitive types, e.g. `krun`.
    pub primitives_prefix: String,
    pub primitives: PrimitiveTypes,
    pub blessed: BlessedTypes,
    pub errors: Vec<ErrorSection>,
    pub exported_types: Vec<ExportedTypeDecl>,
    /// The C types implementing each trait: trait impls first, then the
    /// vtable wrappers of the implementable traits.
    pub trait_implementors: Vec<TraitImplementor>,
    pub enum_constants: Vec<EnumType>,
    pub bitflags_constants: Vec<EnumType>,
    pub traits: Vec<TraitSection>,
    pub trait_impls: Vec<TraitImplDecl>,
    pub free_functions: Vec<FreeFunctionDecl>,
}

/// `typedef void* c_name;` for each error.
pub open spec fn error_typedefs(es: Seq<ErrorSection>) -> Seq<char>
    decreases es.len(),
{
    if es.len() == 0 {
        Seq::empty()
    } else {
        error_typedefs(es.drop_last()) + "typedef void* "@ + es.last().c_name@ + ";\n"@
    }
}

/// `typedef void* c_name;` for each exported type.
pub open spec fn type_typedefs(ts: Seq<ExportedTypeDecl>) -> Seq<char>
    decreases ts.len(),
{
    if ts.len() == 0 {
        Seq::empty()
    } else {
        type_typedefs(ts.drop_last()) + "typedef void* "@ + ts.last().c_name@ + ";\n"@
    }
}

/// The constant sections of enums or bitflags, in order.
pub open spec fn enum_sections(es: Seq<EnumType>) -> Seq<char>
    decreases es.len(),
{
    if es.len() == 0 {
        Seq::empty()
    } else {
        enum_sections(es.drop_last()) + section_header_text(es.last().name@) + enum_defines(es.last().variants@)
    }
}

/// The error sections, in order.
pub open spec fn error_sections(es: Seq<ErrorSection>) -> Seq<char>
    decreases es.len(),
{
    if es.len() == 0 {
        Seq::empty()
    } else {
        error_sections(es.drop_last()) + section_header_text(es.last().decl.name@) + error_defines(
            es.last().type_tag,
            es.last().decl.variants@,
        )
    }
}

/// The type sections, in order.
pub open spec fn type_sections(ts: Seq<ExportedTypeDecl>, b: BlessedTypes) -> Seq<char>
    decreases ts.len(),
{
    if ts.len() == 0 {
        Seq::empty()
    } else {
        type_sections(ts.drop_last(), b) + type_section_text(ts.last(), b)
    }
}

/// The vtable and dispatch sections of each trait, in order.
pub open spec fn trait_sections(ts: Seq<TraitSection>, b: BlessedTypes) -> Seq<char>
    decreases ts.len(),
{
    if ts.len() == 0 {
        Seq::empty()
    } else {
        trait_sections(ts.drop_last(), b) + vtable_section_text(ts.last().vtable, ts.last().type_tag, b)
            + dispatch_section_text(ts.last().vtable, b)
    }
}

/// The trait impl sections, in order.
pub open spec fn trait_impl_sections(ts: Seq<TraitImplDecl>, b: BlessedTypes) -> Seq<char>
    decreases ts.len(),
{
    if ts.len() == 0 {
        Seq::empty()
    } else {
        trait_impl_sections(ts.drop_last(), b) + trait_impl_section_text(ts.last(), b)
    }
}

/// The traits of the implementors in name order (determined: see
/// `lemma_sorted_traits_unique`).
pub open spec fn trait_order(es: Seq<TraitImplementor>) -> Seq<Seq<char>> {
    choose|ns: Seq<Seq<char>>| sorted_traits(es, ns)
}

/// Every trait's vtable has room for one more slot number.
pub open spec fn slots_fit(ts: Seq<TraitSection>) -> bool {
    forall|i: int| 0 <= i < ts.len() ==> (#[trigger] ts[i]).vtable.max_vtable_slot < usize::MAX
}

/// The handle typedefs: errors, exported types, then traits in name
/// order, and a blank line.
pub open spec fn header_typedefs_text(lib: HeaderLibrary) -> Seq<char> {
    error_typedefs(lib.errors@) + type_typedefs(lib.exported_types@) + typedefs_text(
        lib.trait_implementors@,
        trait_order(lib.trait_implementors@),
    ) + "\n"@
}

/// The sections of enums, bitflags, errors, types, traits, trait impls and
/// free functions (if any).
pub open spec fn header_sections_text(lib: HeaderLibrary) -> Seq<char> {
    enum_sections(lib.enum_constants@) + enum_sections(lib.bitflags_constants@) + error_sections(lib.errors@)
        + type_sections(lib.exported_types@, lib.blessed) + trait_sections(lib.traits@, lib.blessed)
        + trait_impl_sections(lib.trait_impls@, lib.blessed) + if lib.free_functions@.len() == 0 {
        Seq::empty()
    } else {
        section_header_text("Free functions"@) + free_functions_text(lib.free_functions@, lib.blessed)
    }
}

/// The declaration of a trait's dispatching destroy function, as C code
/// needs it to free a handle of any implementing type.
pub open spec fn trait_destroy_line(tr: VtableTrait) -> Seq<char> {
    "void "@ + tr.destroy_ffi_name@ + "("@ + tr.handle_c_name@ + " handle);\n"@
}

/// The dispatch section of a trait opens with its `(dispatch)` header and
/// ends with the declaration of its destroy function.
pub proof fn lemma_dispatch_section_declares_destroy(tr: VtableTrait, b: BlessedTypes) -> (mid: Seq<char>)
    ensures
        dispatch_section_text(tr, b) == section_header_text(tr.name@ + " (dispatch)"@) + mid + trait_destroy_line(tr),
{
    let own = if tr.own_method_count <= tr.methods@.len() {
        tr.own_method_count as int
    } else {
        tr.methods@.len() as int
    };
    let mid = trait_methods_text(tr.methods@.take(own), tr.handle_c_name@, true, b);
    assert(destroy_decl(tr.destroy_ffi_name@, tr.handle_c_name@) =~= trait_destroy_line(tr));
    mid
}

/// The trait sections hold the destroy declaration of each trait.
proof fn lemma_trait_sections_declare_destroy(ts: Seq<TraitSection>, b: BlessedTypes, i: int) -> (parts: (Seq<char>, Seq<char>))
    requires
        0 <= i < ts.len(),
    ensures
        trait_sections(ts, b) == parts.0 + trait_destroy_line(ts[i].vtable) + parts.1,
    decreases ts.len(),
{
    let d = ts.drop_last();
    let vt = vtable_section_text(ts.last().vtable, ts.last().type_tag, b);
    let ds = dispatch_section_text(ts.last().vtable, b);
    if i == ts.len() - 1 {
        let mid = lemma_dispatch_section_declares_destroy(ts.last().vtable, b);
        let h = section_header_text(ts.last().vtable.name@ + " (dispatch)"@);
        let line = trait_destroy_line(ts[i].vtable);
        assert(trait_sections(ts, b) =~= (trait_sections(d, b) + vt + h + mid) + line + Seq::<char>::empty());
        (trait_sections(d, b) + vt + h + mid, Seq::<char>::empty())
    } else {
        assert(d[i] == ts[i]);
        let (pre, post) = lemma_trait_sections_declare_destroy(d, b, i);
        let line = trait_destroy_line(ts[i].vtable);
        assert(trait_sections(ts, b) =~= pre + line + (post + vt + ds));
        (pre, post + vt + ds)
    }
}

/// The header of a library declares the dispatching destroy function of
/// every implementable trait.
pub proof fn lemma_header_declares_trait_destroy(lib: HeaderLibrary, guard: Seq<char>, i: int) -> (parts: (Seq<char>, Seq<char>))
    requires
        0 <= i < lib.traits@.len(),
    ensures
        generate_text(lib, guard) == parts.0 + trait_destroy_line(lib.traits@[i].vtable) + parts.1,
{
    let (pre, post) = lemma_trait_sections_declare_destroy(lib.traits@, lib.blessed, i);
    let line = trait_destroy_line(lib.traits@[i].vtable);
    let start = "#ifndef "@ + guard + "\n"@ + "#define "@ + guard + "\n\n"@ + "#include <stddef.h>\n"@ + "#include <stdint.h>\n"@
        + "#include <stdbool.h>\n"@ + "#include <string.h>\n\n"@;
    let a = start + header_typedefs_text(lib) + shared_types_text(ascii_upper(lib.primitives_prefix@) + "_"@, lib.prefix@ + "_"@, lib.primitives);
    let s1 = enum_sections(lib.enum_constants@) + enum_sections(lib.bitflags_constants@) + error_sections(lib.errors@) + type_sections(
        lib.exported_types@,
        lib.blessed,
    );
    let s3 = trait_impl_sections(lib.trait_impls@, lib.blessed) + if lib.free_functions@.len() == 0 {
        Seq::empty()
    } else {
        section_header_text("Free functions"@) + free_functions_text(lib.free_functions@, lib.blessed)
    };
    let tail = header_tail_text(lib, guard);
    assert(header_sections_text(lib) == s1 + trait_sections(lib.traits@, lib.blessed) + s3);
    assert(generate_text(lib, guard) == a + header_sections_text(lib) + tail);
    lemma_regroup_around(a, s1, pre, line, post, s3, tail);
    (a + s1 + pre, post + s3 + tail)
}

/// Concatenation regrouped around a middle piece.
proof fn lemma_regroup_around(
    a: Seq<char>,
    s1: Seq<char>,
    pre: Seq<char>,
    line: Seq<char>,
    post: Seq<char>,
    s3: Seq<char>,
    tail: Seq<char>,
)
    ensures
        a + (s1 + (pre + line + post) + s3) + tail == (a + s1 + pre) + line + (post + s3 + tail),
{
    assert(a + (s1 + (pre + line + post) + s3) + tail =~= (a + s1 + pre) + line + (post + s3 + tail));
}

/// The utility functions and the end of the include guard.
pub open spec fn header_tail_text(lib: HeaderLibrary, guard: Seq<char>) -> Seq<char> {
    utility_functions_text(lib.prefix@ + "_"@, lib.blessed.result_c@, lib.primitives.str_c@) + "\n"@ + "#endif /* "@
        + guard + " */\n"@
}

/// The complete C header of a library: guard and includes, handle
/// typedefs, the shared types (under the primitives prefix, with
/// `str_free` under the library prefix), the sections, and the utility
/// functions.
pub open spec fn generate_text(lib: HeaderLibrary, guard: Seq<char>) -> Seq<char> {
    let start = "#ifndef "@ + guard + "\n"@ + "#define "@ + guard + "\n\n"@ + "#include <stddef.h>\n"@
        + "#include <stdint.h>\n"@ + "#include <stdbool.h>\n"@ + "#include <string.h>\n\n"@;
    start + header_typedefs_text(lib) + shared_types_text(
        ascii_upper(lib.primitives_prefix@) + "_"@,
        lib.prefix@ + "_"@,
        lib.primitives,
    ) + header_sections_text(lib) + header_tail_text(lib, guard)
}

fn push_typedef_lines(out: &mut String, lib: &HeaderLibrary)
    ensures
        final(out)@ == old(out)@ + error_typedefs(lib.errors@) + type_typedefs(lib.exported_types@),
{
    let ghost o0 = out@;
    let mut i: usize = 0;
    assert(lib.errors@.take(0) =~= Seq::<ErrorSection>::empty());
    while i < lib.errors.len()
        invariant
            i <= lib.errors@.len(),
            out@ == o0 + error_typedefs(lib.errors@.take(i as int)),
        decreases lib.errors@.len() - i,
    {
        push_str(out, "typedef void* ");
        push_str(out, lib.errors[i].c_name.as_str());
        push_str(out, ";\n");
        i = i + 1;
        assert(lib.errors@.take(i as int).drop_last() =~= lib.errors@.take(i - 1));
        assert(out@ =~= o0 + error_typedefs(lib.errors@.take(i as int)));
    }
    assert(lib.errors@.take(lib.errors@.len() as int) =~= lib.errors@);
    let ghost o1 = out@;
    let mut i: usize = 0;
    assert(lib.exported_types@.take(0) =~= Seq::<ExportedTypeDecl>::empty());
    while i < lib.exported_types.len()
        invariant
            i <= lib.exported_types@.len(),
            out@ == o1 + type_typedefs(lib.exported_types@.take(i as int)),
        decreases lib.exported_types@.len() - i,
    {
        push_str(out, "typedef void* ");
        push_str(out, lib.exported_types[i].c_name.as_str());
        push_str(out, ";\n");
        i = i + 1;
        assert(lib.exported_types@.take(i as int).drop_last() =~= lib.exported_types@.take(i - 1));
        assert(out@ =~= o1 + type_typedefs(lib.exported_types@.take(i as int)));
    }
    assert(lib.exported_types@.take(lib.exported_types@.len() as int) =~= lib.exported_types@);
}

fn push_enum_sections(out: &mut String, es: &Vec<EnumType>)
    ensures
        final(out)@ == old(out)@ + enum_sections(es@),
{
    let ghost o0 = out@;
    let mut i: usize = 0;
    assert(es@.take(0) =~= Seq::<EnumType>::empty());
    while i < es.len()
        invariant
            i <= es@.len(),
            out@ == o0 + enum_sections(es@.take(i as int)),
        decreases es@.len() - i,
    {
        emit_enum_section(out, &es[i]);
        i = i + 1;
        assert(es@.take(i as int).drop_last() =~= es@.take(i - 1));
        assert(out@ =~= o0 + enum_sections(es@.take(i as int)));
    }
    assert(es@.take(es@.len() as int) =~= es@);
}

fn push_error_sections(out: &mut String, es: &Vec<ErrorSection>)
    ensures
        final(out)@ == old(out)@ + error_sections(es@),
{
    let ghost o0 = out@;
    let mut i: usize = 0;
    assert(es@.take(0) =~= Seq::<ErrorSection>::empty());
    while i < es.len()
        invariant
            i <= es@.len(),
            out@ == o0 + error_sections(es@.take(i as int)),
        decreases es@.len() - i,
    {
        emit_error_section(out, &es[i].decl, es[i].type_tag);
        i = i + 1;
        assert(es@.take(i as int).drop_last() =~= es@.take(i - 1));
        assert(out@ =~= o0 + error_sections(es@.take(i as int)));
    }
    assert(es@.take(es@.len() as int) =~= es@);
}

fn push_type_sections(out: &mut String, ts: &Vec<ExportedTypeDecl>, b: &BlessedTypes)
    ensures
        final(out)@ == old(out)@ + type_sections(ts@, *b),
{
    let ghost o0 = out@;
    let mut i: usize = 0;
    assert(ts@.take(0) =~= Seq::<ExportedTypeDecl>::empty());
    while i < ts.len()
        invariant
            i <= ts@.len(),
            out@ == o0 + type_sections(ts@.take(i as int), *b),
        decreases ts@.len() - i,
    {
        emit_type_section(out, &ts[i], b);
        i = i + 1;
        assert(ts@.take(i as int).drop_last() =~= ts@.take(i - 1));
        assert(out@ =~= o0 + type_sections(ts@.take(i as int), *b));
    }
    assert(ts@.take(ts@.len() as int) =~= ts@);
}

fn push_trait_sections(out: &mut String, ts: &Vec<TraitSection>, b: &BlessedTypes)
    requires
        slots_fit(ts@),
    ensures
        final(out)@ == old(out)@ + trait_sections(ts@, *b),
{
    let ghost o0 = out@;
    let mut i: usize = 0;
    assert(ts@.take(0) =~= Seq::<TraitSection>::empty());
    while i < ts.len()
        invariant
            i <= ts@.len(),
            slots_fit(ts@),
            out@ == o0 + trait_sections(ts@.take(i as int), *b),
        decreases ts@.len() - i,
    {
        assert(ts@[i as int].vtable.max_vtable_slot < usize::MAX);
        emit_vtable_section(out, &ts[i].vtable, ts[i].type_tag, b);
        emit_dispatch_section(out, &ts[i].vtable, b);
        i = i + 1;
        assert(ts@.take(i as int).drop_last() =~= ts@.take(i - 1));
        assert(out@ =~= o0 + trait_sections(ts@.take(i as int), *b));
    }
    assert(ts@.take(ts@.len() as int) =~= ts@);
}

fn push_trait_impl_sections(out: &mut String, ts: &Vec<TraitImplDecl>, b: &BlessedTypes)
    ensures
        final(out)@ == old(out)@ + trait_impl_sections(ts@, *b),
{
    let ghost o0 = out@;
    let mut i: usize = 0;
    assert(ts@.take(0) =~= Seq::<TraitImplDecl>::empty());
    while i < ts.len()
        invariant
            i <= ts@.len(),
            out@ == o0 + trait_impl_sections(ts@.take(i as int), *b),
        decreases ts@.len() - i,
    {
        emit_trait_impl_section(out, &ts[i], b);
        i = i + 1;
        assert(ts@.take(i as int).drop_last() =~= ts@.take(i - 1));
        assert(out@ =~= o0 + trait_impl_sections(ts@.take(i as int), *b));
    }
    assert(ts@.take(ts@.len() as int) =~= ts@);
}

fn header_typedefs(lib: &HeaderLibrary) -> (r: String)
    ensures
        r@ == header_typedefs_text(*lib),
{
    let mut typedefs = String::new();
    push_typedef_lines(&mut typedefs, lib);
    let ghost t1 = typedefs@;
    emit_trait_typedefs(&mut typedefs, lib.trait_implementors.as_slice());
    proof {
        let es = lib.trait_implementors@;
        let ns = choose|ns: Seq<Seq<char>>| sorted_traits(es, ns) && typedefs@ == t1 + typedefs_text(es, ns);
        lemma_sorted_traits_unique(es, ns, trait_order(es));
    }
    push_str(&mut typedefs, "\n");
    typedefs
}

fn header_sections(lib: &HeaderLibrary) -> (r: String)
    requires
        slots_fit(lib.traits@),
    ensures
        r@ == header_sections_text(*lib),
{
    let mut sections = String::new();
    push_enum_sections(&mut sections, &lib.enum_constants);
    push_enum_sections(&mut sections, &lib.bitflags_constants);
    push_error_sections(&mut sections, &lib.errors);
    push_type_sections(&mut sections, &lib.exported_types, &lib.blessed);
    push_trait_sections(&mut sections, &lib.traits, &lib.blessed);
    push_trait_impl_sections(&mut sections, &lib.trait_impls, &lib.blessed);
    let ghost before = sections@;
    if lib.free_functions.len() > 0 {
        emit_free_functions(&mut sections, lib.free_functions.as_slice(), &lib.blessed);
    }
    assert(sections@ =~= header_sections_text(*lib));
    sections
}

fn header_tail(lib: &HeaderLibrary, guard: &str) -> (r: String)
    ensures
        r@ == header_tail_text(*lib, guard@),
{
    let mut fn_pfx = lib.prefix.clone();
    push_str(&mut fn_pfx, "_");
    let mut tail = String::new();
    emit_utility_functions(&mut tail, fn_pfx.as_str(), lib.blessed.result_c.as_str(), lib.primitives.str_c.as_str());
    push_str(&mut tail, "\n");
    push_str(&mut tail, "#endif /* ");
    push_str(&mut tail, guard);
    push_str(&mut tail, " */\n");
    assert(tail@ =~= header_tail_text(*lib, guard@));
    tail
}

/// Generates the C header of a library.
pub fn generate(lib: &HeaderLibrary, guard: &str) -> (r: String)
    requires
        slots_fit(lib.traits@),
    ensures
        r@ == generate_text(*lib, guard@),
{
    let typedefs = header_typedefs(lib);
    let mut shared = String::new();
    let mut prim_upper = to_ascii_uppercase(lib.primitives_prefix.as_str());
    push_str(&mut prim_upper, "_");
    let mut fn_pfx = lib.prefix.clone();
    push_str(&mut fn_pfx, "_");
    emit_shared_types(&mut shared, prim_upper.as_str(), fn_pfx.as_str(), &lib.primitives);
    assert(shared@ =~= shared_types_text(ascii_upper(lib.primitives_prefix@) + "_"@, lib.prefix@ + "_"@, lib.primitives));
    let sections = header_sections(lib);
    let tail = header_tail(lib, guard);
    let mut out = owned("#ifndef ");
    push_str(&mut out, guard);
    push_str(&mut out, "\n");
    push_str(&mut out, "#define ");
    push_str(&mut out, guard);
    push_str(&mut out, "\n\n");
    push_str(&mut out, "#include <stddef.h>\n");
    push_str(&mut out, "#include <stdint.h>\n");
    push_str(&mut out, "#include <stdbool.h>\n");
    push_str(&mut out, "#include <string.h>\n\n");
    push_str(&mut out, typedefs.as_str());
    push_str(&mut out, shared.as_str());
    push_str(&mut out, sections.as_str());
    push_str(&mut out, tail.as_str());
    out
}

} // verus!
