//! C header generation: type names with the library prefix, the assembly
//! of header sections into a complete header, and the extern signatures of
//! methods as the bridge and the Rust client write them.

use vstd::prelude::*;
use vstd::utf8::encode_utf8;
use crate::bridge_sig::{cparams_view, cret_view, ctype_view, push_param, CExternParam, CExternSignature, CRetTokens, CRetView, CTypeTokens, CTypeView};
use crate::convert::MetaReceiver;
use crate::naming::{camel_to_snake, camel_to_snake_spec, snake_to_pascal, snake_to_pascal_spec, to_ascii_uppercase};
use crate::text::{ascii_upper, join_spec, strs_view, chars_of, owned, push_chars, push_repeat, push_str, repeat_spec, strip_prefix, strip_prefix_spec, uppercase_property, char_is_uppercase};

verus! {

// ---------------------------------------------------------------------------
// C type names
// ---------------------------------------------------------------------------

/// A C type name with the library prefix:
/// - names starting with `Ffier` (e.g. `FfierStr`) get `Ffier` replaced by
///   the prefix (`ExStr`);
/// - names starting with an uppercase character (e.g. `Widget`) get the
///   prefix prepended (`ExWidget`);
/// - everything else (e.g. `int32_t`, `bool`) is used as is.
pub open spec fn format_c_type_name_spec(c_type_name: Seq<char>, type_pfx: Seq<char>) -> Seq<char> {
    match strip_prefix_spec(c_type_name, "Ffier"@) {
        Some(suffix) => type_pfx + suffix,
        None => if c_type_name.len() > 0 && uppercase_property(c_type_name[0]) {
            type_pfx + c_type_name
        } else {
            c_type_name
        },
    }
}

/// Format a C type name with the library prefix.
pub fn format_c_type_name(c_type_name: &str, type_pfx: &str) -> (r: String)
    ensures
        r@ == format_c_type_name_spec(c_type_name@, type_pfx@),
{
    let name = chars_of(c_type_name);
    let ffier = chars_of("Ffier");
    match strip_prefix(name.as_slice(), ffier.as_slice()) {
        Some(suffix) => {
            let mut out = owned(type_pfx);
            push_chars(&mut out, suffix.as_slice());
            out
        },
        None => {
            if name.len() > 0 && char_is_uppercase(name[0]) {
                let mut out = owned(type_pfx);
                push_str(&mut out, c_type_name);
                out
            } else {
                owned(c_type_name)
            }
        },
    }
}

// ---------------------------------------------------------------------------
// Header sections and the header builder
// ---------------------------------------------------------------------------

/// The declarations a type contributes to a C header.
pub struct HeaderSection {
    /// Name shown in the section's comment banner.
    pub struct_name: String,
    /// `typedef void* ...;` line for the handle (empty if none).
    pub handle_typedef: String,
    /// The declarations of the section (empty if none).
    pub declarations: String,
}

/// The plain-value form of a [`HeaderSection`].
pub struct HeaderSectionView {
    pub struct_name: Seq<char>,
    pub handle_typedef: Seq<char>,
    pub declarations: Seq<char>,
}

impl View for HeaderSection {
    type V = HeaderSectionView;

    open spec fn view(&self) -> HeaderSectionView {
        HeaderSectionView {
            struct_name: self.struct_name@,
            handle_typedef: self.handle_typedef@,
            declarations: self.declarations@,
        }
    }
}

/// Assembles sections into a complete C header.
pub struct HeaderBuilder {
    guard: String,
    shared_types: String,
    sections: Vec<HeaderSection>,
}

/// The state of a [`HeaderBuilder`].
pub struct HeaderBuilderView {
    pub guard: Seq<char>,
    pub shared_types: Seq<char>,
    pub sections: Seq<HeaderSectionView>,
}

impl View for HeaderBuilder {
    type V = HeaderBuilderView;

    closed spec fn view(&self) -> HeaderBuilderView {
        HeaderBuilderView {
            guard: self.guard@,
            shared_types: self.shared_types@,
            sections: self.sections@.map_values(|s: HeaderSection| s@),
        }
    }
}

/// Length in bytes (UTF-8) of a character sequence.
pub open spec fn byte_len(s: Seq<char>) -> nat {
    encode_utf8(s).len()
}

/// The handle typedef lines: each non-empty typedef followed by a newline,
/// in section order.
pub open spec fn typedef_lines(secs: Seq<HeaderSectionView>) -> Seq<char>
    decreases secs.len(),
{
    if secs.len() == 0 {
        Seq::empty()
    } else {
        typedef_lines(secs.drop_last()) + if secs.last().handle_typedef.len() == 0 {
            Seq::empty()
        } else {
            secs.last().handle_typedef + seq!['\n']
        }
    }
}

/// Some section has a non-empty handle typedef.
pub open spec fn has_typedef(secs: Seq<HeaderSectionView>) -> bool {
    exists|i: int| 0 <= i < secs.len() && (#[trigger] secs[i]).handle_typedef.len() > 0
}

/// `out` ends with a blank line (two newlines), adding what is missing.
pub open spec fn with_blank_line(out: Seq<char>) -> Seq<char> {
    if seq!['\n', '\n'].is_suffix_of(out) {
        out
    } else if out.len() > 0 && out.last() == '\n' {
        out.push('\n')
    } else {
        out + seq!['\n', '\n']
    }
}

/// The comment banner of a section: `/* name ` followed by `66 - len`
/// dashes (the name's length in bytes) and ` */`, so that the line is 73
/// bytes long, followed by a blank line.
pub open spec fn banner(name: Seq<char>) -> Seq<char> {
    "/* "@ + name + seq![' '] + repeat_spec('-', (66 - byte_len(name)) as nat) + " */\n\n"@
}

/// Appends the sections with non-empty declarations, each after a blank
/// line and its banner.
pub open spec fn section_blocks(out: Seq<char>, secs: Seq<HeaderSectionView>) -> Seq<char>
    decreases secs.len(),
{
    if secs.len() == 0 {
        out
    } else {
        let prev = section_blocks(out, secs.drop_last());
        let s = secs.last();
        if s.declarations.len() == 0 {
            prev
        } else {
            with_blank_line(prev) + banner(s.struct_name) + s.declarations
        }
    }
}

/// Every section that has declarations has a name of at most 66 bytes
/// (so that its banner's dash count is not negative).
pub open spec fn names_fit(secs: Seq<HeaderSectionView>) -> bool {
    forall|i: int|
        0 <= i < secs.len() && (#[trigger] secs[i]).declarations.len() > 0 ==> byte_len(secs[i].struct_name)
            <= 66
}

/// The header text: guard, standard includes, handle typedefs, shared
/// types, a marker comment, the sections, and the closing guard.
pub open spec fn header_text(b: HeaderBuilderView) -> Seq<char> {
    let start = "#ifndef "@ + b.guard + seq!['\n'] + "#define "@ + b.guard + seq!['\n'] + seq!['\n']
        + "#include <stddef.h>\n"@ + "#include <stdint.h>\n"@ + "#include <stdbool.h>\n"@
        + "#include <string.h>\n"@ + seq!['\n'];
    let with_typedefs = start + typedef_lines(b.sections) + if has_typedef(b.sections) {
        seq!['\n']
    } else {
        Seq::empty()
    };
    let with_shared = with_typedefs + if b.shared_types.len() == 0 {
        Seq::empty()
    } else {
        b.shared_types + seq!['\n']
    };
    let with_marker = with_shared + "/* Header auto-generated by ffier */\n"@;
    section_blocks(with_marker, b.sections) + seq!['\n'] + "#endif /* "@ + b.guard + " */\n"@
}

/// Every header is wrapped in its include guard: it starts with
/// `#ifndef guard` and ends with `#endif /* guard */`.
pub proof fn lemma_header_guarded(b: HeaderBuilderView)
    ensures
        ("#ifndef "@ + b.guard + seq!['\n']).is_prefix_of(header_text(b)),
        ("#endif /* "@ + b.guard + " */\n"@).is_suffix_of(header_text(b)),
{
    let h = header_text(b);
    let start = "#ifndef "@ + b.guard + seq!['\n'] + "#define "@ + b.guard + seq!['\n'] + seq!['\n']
        + "#include <stddef.h>\n"@ + "#include <stdint.h>\n"@ + "#include <stdbool.h>\n"@
        + "#include <string.h>\n"@ + seq!['\n'];
    let with_typedefs = start + typedef_lines(b.sections) + if has_typedef(b.sections) {
        seq!['\n']
    } else {
        Seq::empty()
    };
    let with_shared = with_typedefs + if b.shared_types.len() == 0 {
        Seq::empty()
    } else {
        b.shared_types + seq!['\n']
    };
    let with_marker = with_shared + "/* Header auto-generated by ffier */\n"@;
    lemma_section_blocks_extend(with_marker, b.sections);
    let open_line = "#ifndef "@ + b.guard + seq!['\n'];
    let sb = section_blocks(with_marker, b.sections);
    assert(start.subrange(0, open_line.len() as int) =~= open_line);
    lemma_prefix_add(start, typedef_lines(b.sections) + if has_typedef(b.sections) {
        seq!['\n']
    } else {
        Seq::empty()
    });
    assert(with_typedefs =~= start + (typedef_lines(b.sections) + if has_typedef(b.sections) {
        seq!['\n']
    } else {
        Seq::empty()
    }));
    lemma_prefix_add(with_typedefs, if b.shared_types.len() == 0 {
        Seq::empty()
    } else {
        b.shared_types + seq!['\n']
    });
    lemma_prefix_add(with_shared, "/* Header auto-generated by ffier */\n"@);
    lemma_prefix_add(sb, seq!['\n'] + "#endif /* "@ + b.guard + " */\n"@);
    assert(h =~= sb + (seq!['\n'] + "#endif /* "@ + b.guard + " */\n"@));
    lemma_prefix_trans(open_line, start, with_typedefs);
    lemma_prefix_trans(open_line, with_typedefs, with_shared);
    lemma_prefix_trans(open_line, with_shared, with_marker);
    lemma_prefix_trans(open_line, with_marker, sb);
    lemma_prefix_trans(open_line, sb, h);
    let close = "#endif /* "@ + b.guard + " */\n"@;
    assert(h.subrange(h.len() - close.len(), h.len() as int) =~= close);
}

/// The part of a header before its sections: guard, includes, handle
/// typedefs, shared types and the marker comment.
pub open spec fn header_head(b: HeaderBuilderView) -> Seq<char> {
    let start = "#ifndef "@ + b.guard + seq!['\n'] + "#define "@ + b.guard + seq!['\n'] + seq!['\n']
        + "#include <stddef.h>\n"@ + "#include <stdint.h>\n"@ + "#include <stdbool.h>\n"@
        + "#include <string.h>\n"@ + seq!['\n'];
    let with_typedefs = start + typedef_lines(b.sections) + if has_typedef(b.sections) {
        seq!['\n']
    } else {
        Seq::empty()
    };
    let with_shared = with_typedefs + if b.shared_types.len() == 0 {
        Seq::empty()
    } else {
        b.shared_types + seq!['\n']
    };
    with_shared + "/* Header auto-generated by ffier */\n"@
}

/// The closing line of a header.
pub open spec fn header_close(guard: Seq<char>) -> Seq<char> {
    seq!['\n'] + "#endif /* "@ + guard + " */\n"@
}

/// The builder with one more section pushed.
pub open spec fn with_section(b: HeaderBuilderView, s: HeaderSectionView) -> HeaderBuilderView {
    HeaderBuilderView { guard: b.guard, shared_types: b.shared_types, sections: b.sections.push(s) }
}

/// A section without a handle typedef leaves the typedef lines as they were.
proof fn lemma_head_unchanged(b: HeaderBuilderView, s: HeaderSectionView)
    requires
        s.handle_typedef.len() == 0,
    ensures
        header_head(with_section(b, s)) == header_head(b),
{
    let secs = b.sections.push(s);
    assert(secs.drop_last() =~= b.sections);
    assert(typedef_lines(secs) == typedef_lines(b.sections));
    if has_typedef(b.sections) {
        let i = choose|i: int| 0 <= i < b.sections.len() && (#[trigger] b.sections[i]).handle_typedef.len() > 0;
        assert(secs[i] == b.sections[i]);
    }
    if has_typedef(secs) {
        let i = choose|i: int| 0 <= i < secs.len() && (#[trigger] secs[i]).handle_typedef.len() > 0;
        assert(i < b.sections.len());
        assert(secs[i] == b.sections[i]);
    }
    assert(has_typedef(secs) == has_typedef(b.sections));
}

/// A header is its head, its sections in push order, and its closing line;
/// and each section pushed after the others: one with neither a handle
/// typedef nor declarations adds nothing, one with declarations (and no
/// typedef) comes last, after a blank line and its banner, just before the
/// closing line.
pub proof fn lemma_header_layout(b: HeaderBuilderView, s: HeaderSectionView)
    ensures
        header_text(b) == section_blocks(header_head(b), b.sections) + header_close(b.guard),
        s.handle_typedef.len() == 0 && s.declarations.len() == 0 ==> header_text(with_section(b, s)) == header_text(b),
        s.handle_typedef.len() == 0 && s.declarations.len() > 0 ==> header_text(with_section(b, s)) == with_blank_line(
            section_blocks(header_head(b), b.sections),
        ) + banner(s.struct_name) + s.declarations + header_close(b.guard),
{
    let b2 = with_section(b, s);
    assert(header_text(b) =~= section_blocks(header_head(b), b.sections) + header_close(b.guard));
    assert(header_text(b2) =~= section_blocks(header_head(b2), b2.sections) + header_close(b2.guard));
    if s.handle_typedef.len() == 0 {
        lemma_head_unchanged(b, s);
        assert(b2.sections.drop_last() =~= b.sections);
        if s.declarations.len() == 0 {
            assert(section_blocks(header_head(b2), b2.sections) == section_blocks(header_head(b), b.sections));
        } else {
            assert(section_blocks(header_head(b2), b2.sections) == with_blank_line(section_blocks(header_head(b), b.sections))
                + banner(s.struct_name) + s.declarations);
        }
    }
}

proof fn lemma_prefix_add(a: Seq<char>, b: Seq<char>)
    ensures
        a.is_prefix_of(a + b),
{
    assert((a + b).subrange(0, a.len() as int) =~= a);
}

proof fn lemma_prefix_trans(a: Seq<char>, b: Seq<char>, c: Seq<char>)
    requires
        a.is_prefix_of(b),
        b.is_prefix_of(c),
    ensures
        a.is_prefix_of(c),
{
    assert forall|i: int| 0 <= i < a.len() implies c[i] == a[i] by {
        assert(b.subrange(0, a.len() as int)[i] == b[i]);
        assert(c.subrange(0, b.len() as int)[i] == c[i]);
    }
    assert(c.subrange(0, a.len() as int) =~= a);
}

/// The sections are appended after what was there.
proof fn lemma_section_blocks_extend(out: Seq<char>, secs: Seq<HeaderSectionView>)
    ensures
        out.is_prefix_of(section_blocks(out, secs)),
    decreases secs.len(),
{
    if secs.len() > 0 {
        lemma_section_blocks_extend(out, secs.drop_last());
        let prev = section_blocks(out, secs.drop_last());
        assert(prev.is_prefix_of(with_blank_line(prev)));
    }
}

impl HeaderBuilder {
    /// A builder with the given guard and shared types, and no sections.
    pub fn new(guard: &str, shared_types: String) -> (r: HeaderBuilder)
        ensures
            r@.guard == guard@,
            r@.shared_types == shared_types@,
            r@.sections == Seq::<HeaderSectionView>::empty(),
    {
        let r = HeaderBuilder { guard: owned(guard), shared_types, sections: Vec::new() };
        assert(r@.sections =~= Seq::<HeaderSectionView>::empty());
        r
    }

    /// Adds a section after the ones already added.
    pub fn push(self, section: HeaderSection) -> (r: HeaderBuilder)
        ensures
            r@.guard == self@.guard,
            r@.shared_types == self@.shared_types,
            r@.sections == self@.sections.push(section@),
    {
        let mut b = self;
        b.sections.push(section);
        assert(b@.sections =~= self@.sections.push(section@));
        b
    }

    /// The complete header.
    pub fn build(&self) -> (r: String)
        requires
            names_fit(self@.sections),
        ensures
            r@ == header_text(self@),
    {
        let ghost b = self@;
        let mut out = String::new();
        push_str(&mut out, "#ifndef ");
        push_str(&mut out, self.guard.as_str());
        crate::text::push_char(&mut out, '\n');
        push_str(&mut out, "#define ");
        push_str(&mut out, self.guard.as_str());
        crate::text::push_char(&mut out, '\n');
        crate::text::push_char(&mut out, '\n');
        push_str(&mut out, "#include <stddef.h>\n");
        push_str(&mut out, "#include <stdint.h>\n");
        push_str(&mut out, "#include <stdbool.h>\n");
        push_str(&mut out, "#include <string.h>\n");
        crate::text::push_char(&mut out, '\n');
        let ghost start = out@;
        assert(start =~= "#ifndef "@ + b.guard + seq!['\n'] + "#define "@ + b.guard + seq!['\n'] + seq!['\n']
            + "#include <stddef.h>\n"@ + "#include <stdint.h>\n"@ + "#include <stdbool.h>\n"@
            + "#include <string.h>\n"@ + seq!['\n']);

        let mut has_handle = false;
        let mut i: usize = 0;
        while i < self.sections.len()
            invariant
                b == self@,
                i <= self.sections@.len(),
                out@ == start + typedef_lines(b.sections.take(i as int)),
                has_handle == has_typedef(b.sections.take(i as int)),
            decreases self.sections@.len() - i,
        {
            let ghost prev = b.sections.take(i as int);
            let ghost next = b.sections.take(i + 1);
            assert(next.drop_last() =~= prev);
            assert(next.last() == self.sections@[i as int]@);
            if !self.sections[i].handle_typedef.as_str().is_empty() {
                push_str(&mut out, self.sections[i].handle_typedef.as_str());
                crate::text::push_char(&mut out, '\n');
                has_handle = true;
                assert(next[i as int].handle_typedef.len() > 0);
            } else {
                proof {
                    if has_handle {
                        let k = choose|k: int| 0 <= k < prev.len() && (#[trigger] prev[k]).handle_typedef.len() > 0;
                        assert(next[k] == prev[k]);
                    } else {
                        assert forall|k: int| 0 <= k < next.len() implies (#[trigger] next[k]).handle_typedef.len() == 0 by {
                            if k < i {
                                assert(next[k] == prev[k]);
                            }
                        }
                    }
                }
            }
            i = i + 1;
            assert(out@ =~= start + typedef_lines(b.sections.take(i as int)));
        }
        assert(b.sections.take(self.sections@.len() as int) =~= b.sections);
        let ghost with_typedefs = start + typedef_lines(b.sections) + if has_typedef(b.sections) {
            seq!['\n']
        } else {
            Seq::empty()
        };
        if has_handle {
            crate::text::push_char(&mut out, '\n');
        }
        if !self.shared_types.as_str().is_empty() {
            push_str(&mut out, self.shared_types.as_str());
            crate::text::push_char(&mut out, '\n');
        }
        push_str(&mut out, "/* Header auto-generated by ffier */\n");
        let ghost marker = out@;
        assert(marker =~= with_typedefs + (if b.shared_types.len() == 0 {
            Seq::empty()
        } else {
            b.shared_types + seq!['\n']
        }) + "/* Header auto-generated by ffier */\n"@);

        let mut i: usize = 0;
        while i < self.sections.len()
            invariant
                b == self@,
                names_fit(b.sections),
                i <= self.sections@.len(),
                out@ == section_blocks(marker, b.sections.take(i as int)),
            decreases self.sections@.len() - i,
        {
            let ghost prev = b.sections.take(i as int);
            let ghost next = b.sections.take(i + 1);
            assert(next.drop_last() =~= prev);
            assert(next.last() == self.sections@[i as int]@);
            let sec = &self.sections[i];
            if !sec.declarations.as_str().is_empty() {
                append_blank_line(&mut out);
                assert(b.sections[i as int] == sec@);
                push_banner(&mut out, sec.struct_name.as_str());
                push_str(&mut out, sec.declarations.as_str());
            }
            i = i + 1;
        }
        assert(b.sections.take(self.sections@.len() as int) =~= b.sections);
        crate::text::push_char(&mut out, '\n');
        push_str(&mut out, "#endif /* ");
        push_str(&mut out, self.guard.as_str());
        push_str(&mut out, " */\n");
        assert(out@ =~= section_blocks(marker, b.sections) + seq!['\n'] + "#endif /* "@ + b.guard + " */\n"@);
        out
    }
}

/// Appends what is needed for `out` to end with a blank line.
fn append_blank_line(out: &mut String)
    ensures
        final(out)@ == with_blank_line(old(out)@),
{
    let v = chars_of(out.as_str());
    let nn = ['\n', '\n'];
    if crate::text::ends_with(v.as_slice(), nn.as_slice()) {
        assert(nn@ =~= seq!['\n', '\n']);
    } else if v.len() > 0 && v[v.len() - 1] == '\n' {
        assert(nn@ =~= seq!['\n', '\n']);
        crate::text::push_char(out, '\n');
    } else {
        assert(nn@ =~= seq!['\n', '\n']);
        crate::text::push_char(out, '\n');
        crate::text::push_char(out, '\n');
        assert(out@ =~= old(out)@ + seq!['\n', '\n']);
    }
}

/// Appends the banner of a section.
fn push_banner(out: &mut String, name: &str)
    requires
        byte_len(name@) <= 66,
    ensures
        final(out)@ == old(out)@ + banner(name@),
{
    push_str(out, "/* ");
    push_str(out, name);
    crate::text::push_char(out, ' ');
    let n = name.len();
    push_repeat(out, '-', 66 - n);
    push_str(out, " */\n\n");
    assert(out@ =~= old(out)@ + banner(name@));
}

// ---------------------------------------------------------------------------
// Declaration lines
// ---------------------------------------------------------------------------

/// `c_type name` for each pair of the two lists, up to the shorter one.
pub open spec fn zip_decls(c_types: Seq<Seq<char>>, names: Seq<Seq<char>>) -> Seq<Seq<char>>
    decreases c_types.len(),
{
    if c_types.len() == 0 || names.len() == 0 {
        Seq::empty()
    } else {
        seq![c_types[0] + " "@ + names[0]] + zip_decls(c_types.drop_first(), names.drop_first())
    }
}

/// The parameter list of a header line: the handle type, the parameters,
/// and the out-parameter `T* result`, each only where present.
pub open spec fn header_line_params(
    handle_type: Option<Seq<char>>,
    c_types: Seq<Seq<char>>,
    names: Seq<Seq<char>>,
    out_param_c_type: Option<Seq<char>>,
) -> Seq<Seq<char>> {
    (match handle_type {
        Some(h) => seq![h],
        None => Seq::empty(),
    }) + zip_decls(c_types, names) + match out_param_c_type {
        Some(ct) => seq![ct + "* result"@],
        None => Seq::empty(),
    }
}

/// The C declaration line of an exported function:
/// `ret name(params);`, with `void` for an empty parameter list.
pub open spec fn header_line_text(
    c_ret: Seq<char>,
    ffi_name: Seq<char>,
    handle_type: Option<Seq<char>>,
    c_types: Seq<Seq<char>>,
    names: Seq<Seq<char>>,
    out_param_c_type: Option<Seq<char>>,
) -> Seq<char> {
    let ps = header_line_params(handle_type, c_types, names, out_param_c_type);
    c_ret + " "@ + ffi_name + "("@ + (if ps.len() == 0 {
        "void"@
    } else {
        join_spec(ps, ", "@)
    }) + ");"@
}

/// The view of an optional string slice.
pub open spec fn opt_str(o: Option<&str>) -> Option<Seq<char>> {
    match o {
        Some(s) => Some(s@),
        None => None,
    }
}

proof fn lemma_join_push(parts: Seq<Seq<char>>, sep: Seq<char>, p: Seq<char>)
    ensures
        join_spec(parts.push(p), sep) == if parts.len() == 0 {
            p
        } else {
            join_spec(parts, sep) + sep + p
        },
{
    assert(parts.push(p).drop_last() =~= parts);
}

/// Builds the C declaration line of an exported function.
pub fn build_header_line(
    c_ret: &str,
    ffi_name: &str,
    handle_type: Option<&str>,
    c_type_names: &[&str],
    param_names: &[&str],
    out_param_c_type: Option<&str>,
) -> (r: String)
    ensures
        r@ == header_line_text(
            c_ret@,
            ffi_name@,
            opt_str(handle_type),
            strs_view(c_type_names@),
            strs_view(param_names@),
            opt_str(out_param_c_type),
        ),
{
    let ghost cts = strs_view(c_type_names@);
    let ghost pns = strs_view(param_names@);
    let mut s = owned(c_ret);
    push_str(&mut s, " ");
    push_str(&mut s, ffi_name);
    push_str(&mut s, "(");
    let ghost s0 = s@;
    // `body` holds the parameter list written so far; `parts` the parameters.
    let ghost mut parts: Seq<Seq<char>> = Seq::empty();
    let mut body = String::new();
    let mut need_comma = false;
    match handle_type {
        Some(ht) => {
            push_str(&mut body, ht);
            need_comma = true;
            proof {
                lemma_join_push(parts, ", "@, ht@);
                parts = parts.push(ht@);
            }
        },
        None => {},
    }
    let n: usize = if c_type_names.len() < param_names.len() {
        c_type_names.len()
    } else {
        param_names.len()
    };
    let ghost head = parts;
    proof {
        lemma_zip_decls_index(cts, pns, 0);
        assert(head =~= head + zip_decls(cts, pns).take(0));
    }
    let mut i: usize = 0;
    while i < n
        invariant
            n <= c_type_names@.len(),
            n <= param_names@.len(),
            n == c_type_names@.len() || n == param_names@.len(),
            i <= n,
            cts == strs_view(c_type_names@),
            pns == strs_view(param_names@),
            parts == head + zip_decls(cts, pns).take(i as int),
            zip_decls(cts, pns).len() == n,
            body@ == join_spec(parts, ", "@),
            need_comma == (parts.len() > 0),
        decreases n - i,
    {
        if need_comma {
            push_str(&mut body, ", ");
        }
        push_str(&mut body, c_type_names[i]);
        push_str(&mut body, " ");
        push_str(&mut body, param_names[i]);
        need_comma = true;
        proof {
            lemma_zip_decls_index(cts, pns, i as int);
            let d = c_type_names@[i as int]@ + " "@ + param_names@[i as int]@;
            lemma_join_push(parts, ", "@, d);
            assert(body@ =~= join_spec(parts.push(d), ", "@));
            parts = parts.push(d);
            assert(zip_decls(cts, pns).take(i + 1) =~= zip_decls(cts, pns).take(i as int).push(d));
        }
        i = i + 1;
    }
    proof {
        assert(zip_decls(cts, pns).take(n as int) =~= zip_decls(cts, pns));
    }
    match out_param_c_type {
        Some(ct) => {
            if need_comma {
                push_str(&mut body, ", ");
            }
            push_str(&mut body, ct);
            push_str(&mut body, "* result");
            need_comma = true;
            proof {
                lemma_join_push(parts, ", "@, ct@ + "* result"@);
                assert(body@ =~= join_spec(parts.push(ct@ + "* result"@), ", "@));
                parts = parts.push(ct@ + "* result"@);
            }
        },
        None => {},
    }
    assert(parts =~= header_line_params(opt_str(handle_type), cts, pns, opt_str(out_param_c_type)));
    if !need_comma {
        push_str(&mut body, "void");
    }
    push_str(&mut s, body.as_str());
    push_str(&mut s, ");");
    s
}

/// The length of `zip_decls` is that of the shorter list, and its items
/// pair the items of the two lists.
proof fn lemma_zip_decls_index(c_types: Seq<Seq<char>>, names: Seq<Seq<char>>, i: int)
    ensures
        zip_decls(c_types, names).len() == if c_types.len() < names.len() {
            c_types.len()
        } else {
            names.len()
        },
        0 <= i < c_types.len() && i < names.len() ==> zip_decls(c_types, names)[i] == c_types[i] + " "@
            + names[i],
    decreases c_types.len(),
{
    if c_types.len() > 0 && names.len() > 0 {
        lemma_zip_decls_index(c_types.drop_first(), names.drop_first(), i - 1);
    }
}

// ---------------------------------------------------------------------------
// Per-library pieces
// ---------------------------------------------------------------------------

/// The string, path and byte-slice types shared by all declarations of a
/// library with prefix `p` (type prefix `tp`, macro prefix `up`), as lines
/// joined by newlines.
pub open spec fn shared_types_source_text(tp: Seq<char>, up: Seq<char>) -> Seq<char> {
    let str_c = tp + "Str"@;
    let bytes_c = tp + "Bytes"@;
    let path_c = tp + "Path"@;
    let str_macro = up + "STR"@;
    let bytes_macro = up + "BYTES"@;
    "/* Caller must ensure data is valid UTF-8 */\n"@ + "typedef struct {\n"@ + "    const char* data;\n"@
        + "    size_t len;\n"@ + "} "@ + str_c + ";\n"@ + "\n"@
        + "/* Caller must ensure data is a valid UTF-8 path */\n"@ + "typedef "@ + str_c + " "@ + path_c
        + ";\n"@ + "\n"@ + "typedef struct {\n"@ + "    const uint8_t* data;\n"@ + "    size_t len;\n"@
        + "} "@ + bytes_c + ";\n"@ + "\n"@ + "#define "@ + str_macro + "(s) (("@ + str_c
        + "){ .data = (s), .len = strlen(s) })\n"@ + "#if defined(__GNUC__)\n"@ + "#define "@
        + bytes_macro + "(arr) ({ \\\n"@ + "    _Static_assert( \\\n"@
        + "        !__builtin_types_compatible_p(typeof(arr), typeof(&(arr)[0])), \\\n"@ + "        \""@
        + bytes_macro + "() requires an array, not a pointer\"); \\\n"@ + "    (("@ + bytes_c
        + "){ .data = (const uint8_t*)(arr), .len = sizeof(arr) }); \\\n"@ + "})\n"@ + "#else\n"@
        + "#define "@ + bytes_macro + "(arr) \\\n"@ + "    (("@ + bytes_c
        + "){ .data = (const uint8_t*)(arr), .len = sizeof(arr) })\n"@ + "#endif"@
}

/// The shared `Str`/`Bytes`/`Path` typedefs and macros for the C header of
/// a library with the given prefix; written once per library.
pub fn shared_types_source(prefix: &str) -> (r: String)
    ensures
        r@ == shared_types_source_text(snake_to_pascal_spec(prefix@), ascii_upper(prefix@) + "_"@),
{
    let tp = snake_to_pascal(prefix);
    let mut up = to_ascii_uppercase(prefix);
    push_str(&mut up, "_");
    let mut str_c = tp.clone();
    push_str(&mut str_c, "Str");
    let mut bytes_c = tp.clone();
    push_str(&mut bytes_c, "Bytes");
    let mut path_c = tp.clone();
    push_str(&mut path_c, "Path");
    let mut str_macro = up.clone();
    push_str(&mut str_macro, "STR");
    let mut bytes_macro = up.clone();
    push_str(&mut bytes_macro, "BYTES");
    let mut s = owned("/* Caller must ensure data is valid UTF-8 */\n");
    push_str(&mut s, "typedef struct {\n");
    push_str(&mut s, "    const char* data;\n");
    push_str(&mut s, "    size_t len;\n");
    push_str(&mut s, "} ");
    push_str(&mut s, str_c.as_str());
    push_str(&mut s, ";\n");
    push_str(&mut s, "\n");
    push_str(&mut s, "/* Caller must ensure data is a valid UTF-8 path */\n");
    push_str(&mut s, "typedef ");
    push_str(&mut s, str_c.as_str());
    push_str(&mut s, " ");
    push_str(&mut s, path_c.as_str());
    push_str(&mut s, ";\n");
    push_str(&mut s, "\n");
    push_str(&mut s, "typedef struct {\n");
    push_str(&mut s, "    const uint8_t* data;\n");
    push_str(&mut s, "    size_t len;\n");
    push_str(&mut s, "} ");
    push_str(&mut s, bytes_c.as_str());
    push_str(&mut s, ";\n");
    push_str(&mut s, "\n");
    push_str(&mut s, "#define ");
    push_str(&mut s, str_macro.as_str());
    push_str(&mut s, "(s) ((");
    push_str(&mut s, str_c.as_str());
    push_str(&mut s, "){ .data = (s), .len = strlen(s) })\n");
    push_str(&mut s, "#if defined(__GNUC__)\n");
    push_str(&mut s, "#define ");
    push_str(&mut s, bytes_macro.as_str());
    push_str(&mut s, "(arr) ({ \\\n");
    push_str(&mut s, "    _Static_assert( \\\n");
    push_str(&mut s, "        !__builtin_types_compatible_p(typeof(arr), typeof(&(arr)[0])), \\\n");
    push_str(&mut s, "        \"");
    push_str(&mut s, bytes_macro.as_str());
    push_str(&mut s, "() requires an array, not a pointer\"); \\\n");
    push_str(&mut s, "    ((");
    push_str(&mut s, bytes_c.as_str());
    push_str(&mut s, "){ .data = (const uint8_t*)(arr), .len = sizeof(arr) }); \\\n");
    push_str(&mut s, "})\n");
    push_str(&mut s, "#else\n");
    push_str(&mut s, "#define ");
    push_str(&mut s, bytes_macro.as_str());
    push_str(&mut s, "(arr) \\\n");
    push_str(&mut s, "    ((");
    push_str(&mut s, bytes_c.as_str());
    push_str(&mut s, "){ .data = (const uint8_t*)(arr), .len = sizeof(arr) })\n");
    push_str(&mut s, "#endif");
    s
}

/// The kind of item a header section is generated for.
#[derive(Clone, Copy, Debug, PartialEq, Eq, Structural)]
pub enum ItemKind {
    /// An exported type or an error type.
    Type,
    /// A trait that C code implements through a vtable.
    Implementable,
    /// An implementation of a trait by an exported type.
    TraitImpl,
}

/// The name of the function returning an item's header section:
/// `{p}_{type}__header`, `{p}_vtable_{trait}__header` or
/// `{p}_{trait}_for_{struct}__header`, with snake-case names.
pub open spec fn header_fn_name_spec(kind: ItemKind, name: Seq<char>, prefix: Seq<char>, struct_name: Seq<char>) -> Seq<char> {
    let fn_pfx = prefix + "_"@;
    match kind {
        ItemKind::Implementable => fn_pfx + "vtable_"@ + camel_to_snake_spec(name) + "__header"@,
        ItemKind::TraitImpl => fn_pfx + camel_to_snake_spec(name) + "_for_"@ + camel_to_snake_spec(struct_name)
            + "__header"@,
        ItemKind::Type => fn_pfx + camel_to_snake_spec(name) + "__header"@,
    }
}

/// The name of the function returning an item's header section.
pub fn header_fn_name(kind: ItemKind, name: &str, prefix: &str, struct_name: &str) -> (r: String)
    ensures
        r@ == header_fn_name_spec(kind, name@, prefix@, struct_name@),
{
    let mut s = owned(prefix);
    push_str(&mut s, "_");
    let snake = camel_to_snake(name);
    match kind {
        ItemKind::Implementable => {
            push_str(&mut s, "vtable_");
            push_str(&mut s, snake.as_str());
        },
        ItemKind::TraitImpl => {
            push_str(&mut s, snake.as_str());
            push_str(&mut s, "_for_");
            let st = camel_to_snake(struct_name);
            push_str(&mut s, st.as_str());
        },
        ItemKind::Type => {
            push_str(&mut s, snake.as_str());
        },
    }
    push_str(&mut s, "__header");
    s
}

// ---------------------------------------------------------------------------
// Extern signatures for either side
// ---------------------------------------------------------------------------

/// Which side an extern signature is written for. Both name the same C
/// types through `<T as FfiType>::CRepr`, with `T` written as the side
/// can name it.
#[derive(Clone, Copy, PartialEq, Eq, Debug, Structural)]
pub enum SignatureContext {
    /// The bridge in the cdylib: types through its `$crate::` aliases.
    Bridge,
    /// Standalone Rust client source: types by their own names, lifetimes
    /// erased.
    Client,
}

/// A type as each side writes it.
pub struct SigType {
    pub bridge_type: String,
    /// The Rust type with its lifetimes erased.
    pub client_type: String,
}

/// The kind of a parameter of an extern signature.
pub enum CSigParamKind {
    Regular(SigType),
    ImplTrait,
    StrSlice,
}

/// A parameter of a method.
pub struct CSigParam {
    pub name: String,
    pub kind: CSigParamKind,
}

/// What a method returns.
pub enum CSigReturn {
    Void,
    Value(SigType),
    /// A `Result`, with its ok type unless it is `()` or a suppressed `Self`.
    Result { ok: Option<SigType> },
}

/// A method, as far as its extern signature goes.
pub struct CSigMethod {
    /// The method's C name, without the library prefix.
    pub ffi_name: String,
    pub receiver: MetaReceiver,
    pub is_builder: bool,
    pub params: Vec<CSigParam>,
    pub ret: CSigReturn,
}

/// The type that side `ctx` writes.
pub open spec fn side_type(t: SigType, ctx: SignatureContext) -> Seq<char> {
    match ctx {
        SignatureContext::Bridge => t.bridge_type@,
        SignatureContext::Client => t.client_type@,
    }
}

/// The C type of a parameter.
pub open spec fn c_param_type_spec(k: CSigParamKind, ctx: SignatureContext) -> CTypeView {
    match k {
        CSigParamKind::Regular(t) => CTypeView::Repr(side_type(t, ctx)),
        CSigParamKind::ImplTrait => CTypeView::VoidPtr,
        CSigParamKind::StrSlice => CTypeView::BytesPtr,
    }
}

/// The C parameters of the method's parameters: one each, and for a
/// `&[&str]` also its length `<name>_len`.
pub open spec fn sig_params_spec(ps: Seq<CSigParam>, ctx: SignatureContext) -> Seq<(Seq<char>, CTypeView)>
    decreases ps.len(),
{
    if ps.len() == 0 {
        Seq::empty()
    } else {
        let p = ps.last();
        let rest = sig_params_spec(ps.drop_last(), ctx);
        if p.kind is StrSlice {
            rest.push((p.name@, c_param_type_spec(p.kind, ctx))).push((p.name@ + "_len"@, CTypeView::Usize))
        } else {
            rest.push((p.name@, c_param_type_spec(p.kind, ctx)))
        }
    }
}

/// The extern function of a method: `<prefix>_<C name>`, taking the handle
/// (through a pointer for a builder that takes `self`), the parameters, and
/// for a `Result` with an ok value the out-parameter `result`; a `Result`
/// returns an error code.
pub open spec fn sig_for_method_spec(m: CSigMethod, prefix: Seq<char>, ctx: SignatureContext) -> (
    Seq<char>,
    Seq<(Seq<char>, CTypeView)>,
    CRetView,
) {
    let handle = if m.receiver == MetaReceiver::NoSelf {
        Seq::empty()
    } else if m.is_builder && m.receiver == MetaReceiver::Value {
        seq![("handle"@, CTypeView::VoidPtrPtr)]
    } else {
        seq![("handle"@, CTypeView::VoidPtr)]
    };
    let params = handle + sig_params_spec(m.params@, ctx);
    match m.ret {
        CSigReturn::Void => (prefix + "_"@ + m.ffi_name@, params, CRetView::Void),
        CSigReturn::Value(t) => (prefix + "_"@ + m.ffi_name@, params, CRetView::Repr(side_type(t, ctx))),
        CSigReturn::Result { ok } => (
            prefix + "_"@ + m.ffi_name@,
            match ok {
                Some(t) => params.push(("result"@, CTypeView::OutRepr(side_type(t, ctx)))),
                None => params,
            },
            CRetView::FfierError,
        ),
    }
}

fn side_type_of(t: &SigType, ctx: SignatureContext) -> (r: String)
    ensures
        r@ == side_type(*t, ctx),
{
    match ctx {
        SignatureContext::Bridge => t.bridge_type.clone(),
        SignatureContext::Client => t.client_type.clone(),
    }
}

/// The C type of a parameter kind, as side `ctx` writes it.
pub fn c_param_type(k: &CSigParamKind, ctx: SignatureContext) -> (r: CTypeTokens)
    ensures
        ctype_view(r) == c_param_type_spec(*k, ctx),
{
    match k {
        CSigParamKind::Regular(t) => CTypeTokens::Repr(side_type_of(t, ctx)),
        CSigParamKind::ImplTrait => CTypeTokens::VoidPtr,
        CSigParamKind::StrSlice => CTypeTokens::BytesPtr,
    }
}

/// The C return type of a value, as side `ctx` writes it.
pub fn c_return_type(t: &SigType, ctx: SignatureContext) -> (r: CRetTokens)
    ensures
        cret_view(r) == CRetView::Repr(side_type(*t, ctx)),
{
    CRetTokens::Repr(side_type_of(t, ctx))
}

/// The C type of the out-parameter of a `Result`'s ok value.
pub fn c_out_param_type(t: &SigType, ctx: SignatureContext) -> (r: CTypeTokens)
    ensures
        ctype_view(r) == CTypeView::OutRepr(side_type(*t, ctx)),
{
    CTypeTokens::OutRepr(side_type_of(t, ctx))
}

/// The extern signature of a method, for the library prefix `prefix`, as
/// side `ctx` writes it.
pub fn c_signature_for_method(m: &CSigMethod, prefix: &str, ctx: SignatureContext) -> (r: CExternSignature)
    ensures
        (r.fn_name@, cparams_view(r.params@), cret_view(r.ret)) == sig_for_method_spec(*m, prefix@, ctx),
{
    let mut fn_name = owned(prefix);
    push_str(&mut fn_name, "_");
    push_str(&mut fn_name, m.ffi_name.as_str());
    let mut params: Vec<CExternParam> = Vec::new();
    if m.receiver != MetaReceiver::NoSelf {
        if m.is_builder && m.receiver == MetaReceiver::Value {
            push_param(&mut params, owned("handle"), CTypeTokens::VoidPtrPtr);
        } else {
            push_param(&mut params, owned("handle"), CTypeTokens::VoidPtr);
        }
    }
    let ghost head = cparams_view(params@);
    let mut i: usize = 0;
    assert(m.params@.take(0) =~= Seq::<CSigParam>::empty());
    assert(head + sig_params_spec(m.params@.take(0), ctx) =~= head);
    while i < m.params.len()
        invariant
            i <= m.params@.len(),
            cparams_view(params@) == head + sig_params_spec(m.params@.take(i as int), ctx),
        decreases m.params@.len() - i,
    {
        let p = &m.params[i];
        assert(m.params@.take(i + 1).drop_last() =~= m.params@.take(i as int));
        assert(m.params@.take(i + 1).last() == m.params@[i as int]);
        push_param(&mut params, p.name.clone(), c_param_type(&p.kind, ctx));
        if let CSigParamKind::StrSlice = &p.kind {
            let mut len_name = p.name.clone();
            push_str(&mut len_name, "_len");
            push_param(&mut params, len_name, CTypeTokens::Usize);
        }
        i = i + 1;
        assert(cparams_view(params@) =~= head + sig_params_spec(m.params@.take(i as int), ctx));
    }
    assert(m.params@.take(m.params@.len() as int) =~= m.params@);
    let ret = match &m.ret {
        CSigReturn::Void => CRetTokens::Void,
        CSigReturn::Value(t) => c_return_type(t, ctx),
        CSigReturn::Result { ok } => {
            match ok {
                Some(t) => push_param(&mut params, owned("result"), c_out_param_type(t, ctx)),
                None => {},
            }
            CRetTokens::FfierError
        },
    };
    CExternSignature { fn_name, params, ret }
}

/// The bridge and the client write the same extern signature but for the
/// types: the same name, the same parameters in the same order with the
/// same kinds of C type, and the same kind of return.
pub proof fn lemma_sides_agree(m: CSigMethod, prefix: Seq<char>)
    ensures
        sig_for_method_spec(m, prefix, SignatureContext::Bridge).0 == sig_for_method_spec(m, prefix, SignatureContext::Client).0,
        sig_for_method_spec(m, prefix, SignatureContext::Bridge).1.len() == sig_for_method_spec(m, prefix, SignatureContext::Client).1.len(),
        forall|i: int|
            0 <= i < sig_for_method_spec(m, prefix, SignatureContext::Bridge).1.len() ==> (#[trigger] sig_for_method_spec(
                m,
                prefix,
                SignatureContext::Bridge,
            ).1[i]).0 == sig_for_method_spec(m, prefix, SignatureContext::Client).1[i].0 && same_kind(
                sig_for_method_spec(m, prefix, SignatureContext::Bridge).1[i].1,
                sig_for_method_spec(m, prefix, SignatureContext::Client).1[i].1,
            ),
        same_ret_kind(sig_for_method_spec(m, prefix, SignatureContext::Bridge).2, sig_for_method_spec(m, prefix, SignatureContext::Client).2),
{
    lemma_params_agree(m.params@);
    let b = sig_for_method_spec(m, prefix, SignatureContext::Bridge).1;
    let c = sig_for_method_spec(m, prefix, SignatureContext::Client).1;
    let hb = if m.receiver == MetaReceiver::NoSelf {
        Seq::<(Seq<char>, CTypeView)>::empty()
    } else if m.is_builder && m.receiver == MetaReceiver::Value {
        seq![("handle"@, CTypeView::VoidPtrPtr)]
    } else {
        seq![("handle"@, CTypeView::VoidPtr)]
    };
    let pb = hb + sig_params_spec(m.params@, SignatureContext::Bridge);
    let pc = hb + sig_params_spec(m.params@, SignatureContext::Client);
    assert forall|i: int| 0 <= i < pb.len() implies (#[trigger] pb[i]).0 == pc[i].0 && same_kind(pb[i].1, pc[i].1) by {
        if i >= hb.len() {
            assert(pb[i] == sig_params_spec(m.params@, SignatureContext::Bridge)[i - hb.len()]);
            assert(pc[i] == sig_params_spec(m.params@, SignatureContext::Client)[i - hb.len()]);
        }
    }
    assert forall|i: int| 0 <= i < b.len() implies (#[trigger] b[i]).0 == c[i].0 && same_kind(b[i].1, c[i].1) by {
        if i < pb.len() {
            assert(b[i] == pb[i] && c[i] == pc[i]);
        }
    }
}

/// Two C types of the same kind (the same but for the type they name).
pub open spec fn same_kind(a: CTypeView, b: CTypeView) -> bool {
    match (a, b) {
        (CTypeView::Repr(_), CTypeView::Repr(_)) => true,
        (CTypeView::OutRepr(_), CTypeView::OutRepr(_)) => true,
        _ => a == b,
    }
}

/// Two return types of the same kind.
pub open spec fn same_ret_kind(a: CRetView, b: CRetView) -> bool {
    match (a, b) {
        (CRetView::Repr(_), CRetView::Repr(_)) => true,
        _ => a == b,
    }
}

proof fn lemma_params_agree(ps: Seq<CSigParam>)
    ensures
        sig_params_spec(ps, SignatureContext::Bridge).len() == sig_params_spec(ps, SignatureContext::Client).len(),
        forall|i: int|
            0 <= i < sig_params_spec(ps, SignatureContext::Bridge).len() ==> (#[trigger] sig_params_spec(ps, SignatureContext::Bridge)[i]).0
                == sig_params_spec(ps, SignatureContext::Client)[i].0 && same_kind(
                sig_params_spec(ps, SignatureContext::Bridge)[i].1,
                sig_params_spec(ps, SignatureContext::Client)[i].1,
            ),
    decreases ps.len(),
{
    if ps.len() > 0 {
        lemma_params_agree(ps.drop_last());
    }
}

} // verus!
