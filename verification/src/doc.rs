//! Rust doc comments turned into Doxygen comments for the C header.
//!
//! A doc comment is read as a body followed by optional sections: a
//! `# Arguments` (or `# Parameters`) section with one bullet per parameter,
//! and a `# Returns` section.  Any other `# ` heading returns to the body.

use vstd::prelude::*;
use crate::text::{
    chars_of, find_char, first_index, join_spec, join_strings, owned, push_chars, push_str, slice_from, slice_range, starts_with, str_eq, str_to_lowercase,
    string_of, strings_view, strip_prefix, strip_prefix_spec, trim, trim_spec, trim_str,
    unicode_lowercase,
};

verus! {

// ---------------------------------------------------------------------------
// Parameter bullets
// ---------------------------------------------------------------------------

/// Drops one separator (`-`, `:` or `—`) at the start, if there is one.
pub open spec fn strip_separator(s: Seq<char>) -> Seq<char> {
    if s.len() > 0 && (s[0] == '-' || s[0] == ':' || s[0] == '\u{2014}') {
        s.drop_first()
    } else {
        s
    }
}

/// A parameter entry `` `name` - description ``: the name between the first
/// two backticks and the trimmed description after an optional separator.
pub open spec fn parse_param_entry_spec(s: Seq<char>) -> Option<(Seq<char>, Seq<char>)> {
    let t = trim_spec(s);
    if t.len() == 0 || t[0] != '`' {
        None
    } else {
        let rest = t.drop_first();
        match first_index(rest, '`') {
            None => None,
            Some(end) => Some((
                rest.take(end),
                trim_spec(strip_separator(trim_spec(rest.skip(end + 1)))),
            )),
        }
    }
}

/// Parses a parameter entry of an `# Arguments` section.
pub fn parse_param_entry(s: &str) -> (r: Option<(String, String)>)
    ensures
        match r {
            Some((name, desc)) => parse_param_entry_spec(s@) == Some((name@, desc@)),
            None => parse_param_entry_spec(s@) is None,
        },
{
    let t = trim_str(s);
    if t.len() == 0 || t[0] != '`' {
        return None;
    }
    let rest = slice_from(t.as_slice(), 1);
    assert(rest@ =~= t@.drop_first());
    match find_char(rest.as_slice(), '`') {
        None => None,
        Some(end) => {
            let name = slice_range(rest.as_slice(), 0, end);
            let after_v = slice_from(rest.as_slice(), end + 1);
            let after = trim(after_v.as_slice());
            let sep = if after.len() > 0 && (after[0] == '-' || after[0] == ':' || after[0] == '\u{2014}') {
                slice_from(after.as_slice(), 1)
            } else {
                after
            };
            assert(sep@ =~= strip_separator(trim_spec(rest@.skip(end + 1))));
            let desc = trim(sep.as_slice());
            assert(name@ =~= rest@.take(end as int));
            Some((string_of(name.as_slice()), string_of(desc.as_slice())))
        },
    }
}

// ---------------------------------------------------------------------------
// Sections of a doc comment
// ---------------------------------------------------------------------------

/// The section a doc line belongs to.
#[derive(Clone, Copy, Debug, PartialEq, Eq, Structural)]
pub enum DocSection {
    Body,
    Arguments,
    Returns,
}

/// The section heading a lowercased, trimmed line opens, if any:
/// `# arguments` and `# parameters` open the arguments section, a line
/// starting with `# return` opens the returns section.
pub open spec fn heading_of(lower: Seq<char>) -> Option<DocSection> {
    if lower == "# arguments"@ || lower == "# parameters"@ {
        Some(DocSection::Arguments)
    } else if "# return"@.is_prefix_of(lower) {
        Some(DocSection::Returns)
    } else {
        None
    }
}

/// Classifies a lowercased, trimmed doc line as a section heading.
pub fn heading_kind(lower: &str) -> (r: Option<DocSection>)
    ensures
        r == heading_of(lower@),
{
    if str_eq(lower, "# arguments") || str_eq(lower, "# parameters") {
        return Some(DocSection::Arguments);
    }
    let lv = chars_of(lower);
    let ret = chars_of("# return");
    if starts_with(lv.as_slice(), ret.as_slice()) {
        Some(DocSection::Returns)
    } else {
        None
    }
}

/// The parsed sections of a doc comment.
pub struct DocSections {
    /// Body lines, as written, without trailing blank lines.
    pub body: Vec<String>,
    /// `(name, description)` for each parameter bullet.
    pub param_docs: Vec<(String, String)>,
    /// The returns section, joined into one line.
    pub returns_doc: Option<String>,
}

/// The plain-value form of [`DocSections`].
pub struct DocSectionsView {
    pub body: Seq<Seq<char>>,
    pub param_docs: Seq<(Seq<char>, Seq<char>)>,
    pub returns_doc: Option<Seq<char>>,
}

/// The views of a list of name/description pairs.
pub open spec fn pairs_view(ps: Seq<(String, String)>) -> Seq<(Seq<char>, Seq<char>)> {
    ps.map_values(|p: (String, String)| (p.0@, p.1@))
}

/// The view of an optional string.
pub open spec fn opt_view(o: Option<String>) -> Option<Seq<char>> {
    match o {
        Some(s) => Some(s@),
        None => None,
    }
}

impl View for DocSections {
    type V = DocSectionsView;

    open spec fn view(&self) -> DocSectionsView {
        DocSectionsView {
            body: strings_view(self.body@),
            param_docs: pairs_view(self.param_docs@),
            returns_doc: opt_view(self.returns_doc),
        }
    }
}

/// The state while reading a doc comment line by line.
pub struct DocScan {
    pub section: DocSection,
    pub body: Seq<Seq<char>>,
    pub param_docs: Seq<(Seq<char>, Seq<char>)>,
    pub returns_doc: Option<Seq<char>>,
    pub returns_lines: Seq<Seq<char>>,
}

/// The state before the first line.
pub open spec fn doc_scan_start() -> DocScan {
    DocScan {
        section: DocSection::Body,
        body: Seq::empty(),
        param_docs: Seq::empty(),
        returns_doc: None,
        returns_lines: Seq::empty(),
    }
}

/// A line without one leading space.
pub open spec fn unindent(raw: Seq<char>) -> Seq<char> {
    match strip_prefix_spec(raw, " "@) {
        Some(rest) => rest,
        None => raw,
    }
}

/// The collected returns lines as one trimmed line.
pub open spec fn joined_returns(lines: Seq<Seq<char>>) -> Seq<char> {
    trim_spec(join_spec(lines, " "@))
}

/// The parameter entry of an arguments line, if it is a bullet (`* ` or
/// `- `) holding a well-formed entry.
pub open spec fn bullet_entry(line: Seq<char>) -> Option<(Seq<char>, Seq<char>)> {
    let t = trim_spec(line);
    let after = match strip_prefix_spec(t, "* "@) {
        Some(rest) => Some(rest),
        None => strip_prefix_spec(t, "- "@),
    };
    match after {
        Some(rest) => parse_param_entry_spec(rest),
        None => None,
    }
}

/// An arguments line is a bullet with `- ` as well as with `* `: a line
/// that reads, trimmed, `- ` or `* ` followed by `rest` holds the entry that
/// `rest` holds, so the two bullets give the same name and description.
pub proof fn lemma_bullets_agree(line: Seq<char>, rest: Seq<char>)
    ensures
        trim_spec(line) == "- "@ + rest ==> bullet_entry(line) == parse_param_entry_spec(rest),
        trim_spec(line) == "* "@ + rest ==> bullet_entry(line) == parse_param_entry_spec(rest),
{
    reveal_strlit("- ");
    reveal_strlit("* ");
    let t = trim_spec(line);
    if t == "- "@ + rest {
        assert(!"* "@.is_prefix_of(t)) by {
            assert(t[0] == '-');
        }
        assert("- "@.is_prefix_of(t)) by {
            assert(t.subrange(0, 2) =~= "- "@);
        }
        assert(t.skip(2) =~= rest);
    }
    if t == "* "@ + rest {
        assert("* "@.is_prefix_of(t)) by {
            assert(t.subrange(0, 2) =~= "* "@);
        }
        assert(t.skip(2) =~= rest);
    }
}

/// In the arguments section, a line that is no heading adds the entry of
/// its bullet (`- ` or `* `) to the parameter docs, after those before it,
/// and leaves the section as it is.
pub proof fn lemma_arguments_line(st: DocScan, raw: Seq<char>, rest: Seq<char>)
    requires
        st.section == DocSection::Arguments,
        trim_spec(unindent(raw)) == "- "@ + rest || trim_spec(unindent(raw)) == "* "@ + rest,
        heading_of(unicode_lowercase(trim_spec(unindent(raw)))) is None,
    ensures
        doc_step(st, raw).section == DocSection::Arguments,
        doc_step(st, raw).param_docs == match parse_param_entry_spec(rest) {
            Some(p) => st.param_docs.push(p),
            None => st.param_docs,
        },
{
    reveal_strlit("# ");
    reveal_strlit("- ");
    reveal_strlit("* ");
    let t = trim_spec(unindent(raw));
    lemma_bullets_agree(unindent(raw), rest);
    assert(!"# "@.is_prefix_of(t)) by {
        assert(t[0] == '-' || t[0] == '*');
        if "# "@.is_prefix_of(t) {
            assert(t[0] == "# "@[0]);
        }
    }
}

/// Reads one raw doc line.
pub open spec fn doc_step(st: DocScan, raw: Seq<char>) -> DocScan {
    let line = unindent(raw);
    let t = trim_spec(line);
    match heading_of(unicode_lowercase(t)) {
        Some(sec) => DocScan { section: sec, ..st },
        None => {
            // Any other heading closes the returns section.
            let st1 = if "# "@.is_prefix_of(t) {
                if st.returns_lines.len() > 0 {
                    DocScan {
                        section: DocSection::Body,
                        returns_doc: Some(joined_returns(st.returns_lines)),
                        returns_lines: Seq::empty(),
                        ..st
                    }
                } else {
                    DocScan { section: DocSection::Body, ..st }
                }
            } else {
                st
            };
            match st1.section {
                DocSection::Body => DocScan { body: st1.body.push(raw), ..st1 },
                DocSection::Arguments => match bullet_entry(line) {
                    Some(p) => DocScan { param_docs: st1.param_docs.push(p), ..st1 },
                    None => st1,
                },
                DocSection::Returns => if t.len() > 0 {
                    DocScan { returns_lines: st1.returns_lines.push(t), ..st1 }
                } else {
                    st1
                },
            }
        },
    }
}

/// The state after reading all `lines`.
pub open spec fn doc_fold(lines: Seq<Seq<char>>) -> DocScan
    decreases lines.len(),
{
    if lines.len() == 0 {
        doc_scan_start()
    } else {
        doc_step(doc_fold(lines.drop_last()), lines.last())
    }
}

/// `body` without its trailing whitespace-only lines.
pub open spec fn drop_blank_tail(body: Seq<Seq<char>>) -> Seq<Seq<char>>
    decreases body.len(),
{
    if body.len() > 0 && trim_spec(body.last()).len() == 0 {
        drop_blank_tail(body.drop_last())
    } else {
        body
    }
}

/// The sections of a doc comment given as lines.
pub open spec fn parse_doc_sections_spec(lines: Seq<Seq<char>>) -> DocSectionsView {
    let st = doc_fold(lines);
    DocSectionsView {
        body: drop_blank_tail(st.body),
        param_docs: st.param_docs,
        returns_doc: if st.returns_lines.len() > 0 {
            Some(joined_returns(st.returns_lines))
        } else {
            st.returns_doc
        },
    }
}

/// The executable scanning state.
struct DocScanner {
    section: DocSection,
    body: Vec<String>,
    param_docs: Vec<(String, String)>,
    returns_doc: Option<String>,
    returns_lines: Vec<String>,
}

impl DocScanner {
    spec fn scan(&self) -> DocScan {
        DocScan {
            section: self.section,
            body: strings_view(self.body@),
            param_docs: pairs_view(self.param_docs@),
            returns_doc: opt_view(self.returns_doc),
            returns_lines: strings_view(self.returns_lines@),
        }
    }
}

/// The collected returns lines joined by spaces and trimmed.
fn join_returns(lines: &Vec<String>) -> (r: String)
    ensures
        r@ == joined_returns(strings_view(lines@)),
{
    let j = join_strings(lines.as_slice(), " ");
    let t = trim_str(j.as_str());
    string_of(t.as_slice())
}

/// The parameter entry of a bullet line.
fn bullet_param(line: &[char]) -> (r: Option<(String, String)>)
    ensures
        match r {
            Some((n, d)) => bullet_entry(line@) == Some((n@, d@)),
            None => bullet_entry(line@) is None,
        },
{
    let t = trim(line);
    let star = chars_of("* ");
    let dash = chars_of("- ");
    let after = match strip_prefix(t.as_slice(), star.as_slice()) {
        Some(rest) => Some(rest),
        None => strip_prefix(t.as_slice(), dash.as_slice()),
    };
    match after {
        Some(rest) => {
            let s = string_of(rest.as_slice());
            parse_param_entry(s.as_str())
        },
        None => None,
    }
}

/// Reads one raw doc line into the scanner.
fn scan_line(st: &mut DocScanner, raw: &String)
    ensures
        final(st).scan() == doc_step(old(st).scan(), raw@),
{
    let rv = chars_of(raw.as_str());
    let sp = chars_of(" ");
    let line = match strip_prefix(rv.as_slice(), sp.as_slice()) {
        Some(rest) => rest,
        None => rv,
    };
    assert(line@ == unindent(raw@));
    let t = trim(line.as_slice());
    let ts = string_of(t.as_slice());
    let lower = str_to_lowercase(ts.as_str());
    match heading_kind(lower.as_str()) {
        Some(sec) => {
            st.section = sec;
            return;
        },
        None => {},
    }
    let hash = chars_of("# ");
    if starts_with(t.as_slice(), hash.as_slice()) {
        if st.returns_lines.len() > 0 {
            let joined = join_returns(&st.returns_lines);
            st.returns_doc = Some(joined);
            st.returns_lines = Vec::new();
            assert(strings_view(st.returns_lines@) =~= Seq::<Seq<char>>::empty());
        }
        st.section = DocSection::Body;
    }
    let ghost mid = st.scan();
    match st.section {
        DocSection::Body => {
            st.body.push(raw.clone());
            assert(strings_view(st.body@) =~= mid.body.push(raw@));
        },
        DocSection::Arguments => {
            match bullet_param(line.as_slice()) {
                Some(p) => {
                    let ghost pv = (p.0@, p.1@);
                    st.param_docs.push(p);
                    assert(pairs_view(st.param_docs@) =~= mid.param_docs.push(pv));
                },
                None => {},
            }
        },
        DocSection::Returns => {
            if t.len() > 0 {
                st.returns_lines.push(string_of(t.as_slice()));
                assert(strings_view(st.returns_lines@) =~= mid.returns_lines.push(t@));
            }
        },
    }
}

/// The body kept from a doc comment never ends with a blank line.
pub proof fn lemma_body_ends_with_text(body: Seq<Seq<char>>)
    ensures
        drop_blank_tail(body).len() > 0 ==> trim_spec(drop_blank_tail(body).last()).len() > 0,
    decreases body.len(),
{
    if body.len() > 0 && trim_spec(body.last()).len() == 0 {
        lemma_body_ends_with_text(body.drop_last());
    }
}

/// Splits doc comment lines into body, parameter docs and returns doc.
pub fn parse_doc_sections(doc_lines: &[String]) -> (r: DocSections)
    ensures
        r@ == parse_doc_sections_spec(strings_view(doc_lines@)),
        r@.body.len() > 0 ==> trim_spec(r@.body.last()).len() > 0,
{
    let ghost lines = strings_view(doc_lines@);
    let mut st = DocScanner {
        section: DocSection::Body,
        body: Vec::new(),
        param_docs: Vec::new(),
        returns_doc: None,
        returns_lines: Vec::new(),
    };
    assert(st.scan() =~= doc_scan_start()) by {
        assert(strings_view(st.body@) =~= Seq::<Seq<char>>::empty());
        assert(pairs_view(st.param_docs@) =~= Seq::<(Seq<char>, Seq<char>)>::empty());
        assert(strings_view(st.returns_lines@) =~= Seq::<Seq<char>>::empty());
    }
    assert(lines.take(0) =~= Seq::<Seq<char>>::empty());
    let mut i: usize = 0;
    while i < doc_lines.len()
        invariant
            i <= doc_lines@.len(),
            lines == strings_view(doc_lines@),
            st.scan() == doc_fold(lines.take(i as int)),
        decreases doc_lines@.len() - i,
    {
        scan_line(&mut st, &doc_lines[i]);
        i = i + 1;
        assert(lines.take(i as int).drop_last() =~= lines.take(i - 1));
        assert(lines.take(i as int).last() == doc_lines@[i - 1]@);
    }
    assert(lines.take(doc_lines@.len() as int) =~= lines);
    let returns_doc = if st.returns_lines.len() > 0 {
        Some(join_returns(&st.returns_lines))
    } else {
        st.returns_doc
    };
    let mut body = st.body;
    let ghost full = strings_view(body@);
    loop
        invariant
            drop_blank_tail(full) == drop_blank_tail(strings_view(body@)),
        ensures
            drop_blank_tail(full) == strings_view(body@),
        decreases body@.len(),
    {
        let n = body.len();
        if n == 0 {
            break;
        }
        let last = trim_str(body[n - 1].as_str());
        if last.len() != 0 {
            break;
        }
        let ghost before = strings_view(body@);
        body.pop();
        assert(strings_view(body@) =~= before.drop_last());
    }
    proof {
        lemma_body_ends_with_text(full);
    }
    DocSections { body, param_docs: st.param_docs, returns_doc }
}

// ---------------------------------------------------------------------------
// Doxygen comments
// ---------------------------------------------------------------------------

/// One body line of a Doxygen comment.
pub open spec fn body_line(line: Seq<char>) -> Seq<char> {
    let t = unindent(line);
    if t.len() == 0 {
        " *\n"@
    } else {
        " * "@ + t + "\n"@
    }
}

/// The body lines of a Doxygen comment.
pub open spec fn body_text(body: Seq<Seq<char>>) -> Seq<char>
    decreases body.len(),
{
    if body.len() == 0 {
        Seq::empty()
    } else {
        body_text(body.drop_last()) + body_line(body.last())
    }
}

/// The description of the first entry from position `i` on that documents
/// `name`; empty if there is none.
pub open spec fn param_desc(docs: Seq<(Seq<char>, Seq<char>)>, name: Seq<char>, i: int) -> Seq<char>
    decreases docs.len() - i,
{
    if i < 0 || i >= docs.len() {
        Seq::empty()
    } else if docs[i].0 == name {
        docs[i].1
    } else {
        param_desc(docs, name, i + 1)
    }
}

/// The `@param` line of one parameter.
pub open spec fn param_line(name: Seq<char>, desc: Seq<char>) -> Seq<char> {
    if desc.len() == 0 {
        " * @param "@ + name + "\n"@
    } else {
        " * @param "@ + name + " "@ + desc + "\n"@
    }
}

/// The `@param` lines of all parameters, in order.
pub open spec fn params_text(names: Seq<Seq<char>>, docs: Seq<(Seq<char>, Seq<char>)>) -> Seq<char>
    decreases names.len(),
{
    if names.len() == 0 {
        Seq::empty()
    } else {
        params_text(names.drop_last(), docs) + param_line(names.last(), param_desc(docs, names.last(), 0))
    }
}

/// The `@param[out]` line, if there is an out parameter.
pub open spec fn out_param_text(has_out_param: bool, returns_doc: Option<Seq<char>>) -> Seq<char> {
    if !has_out_param {
        Seq::empty()
    } else {
        match returns_doc {
            Some(d) => " * @param[out] result "@ + d + "\n"@,
            None => " * @param[out] result\n"@,
        }
    }
}

/// The `@return` line: the error type for fallible functions, else the
/// returns doc if there is one.
pub open spec fn return_text(err_c_name: Option<Seq<char>>, returns_doc: Option<Seq<char>>) -> Seq<char> {
    match err_c_name {
        Some(e) => " * @return "@ + e + " with code 0 on success, error code on failure.\n"@,
        None => match returns_doc {
            Some(d) => " * @return "@ + d + "\n"@,
            None => Seq::empty(),
        },
    }
}

/// The Doxygen comment for a function with the given doc lines and
/// parameters; none when there is nothing to document.
pub open spec fn doxygen_spec(
    lines: Seq<Seq<char>>,
    names: Seq<Seq<char>>,
    has_out_param: bool,
    err_c_name: Option<Seq<char>>,
) -> Option<Seq<char>> {
    if lines.len() == 0 {
        None
    } else {
        let s = parse_doc_sections_spec(lines);
        if s.body.len() == 0 && s.param_docs.len() == 0 && s.returns_doc is None {
            None
        } else {
            let has_params = names.len() > 0 || has_out_param;
            let has_return = err_c_name is Some || s.returns_doc is Some;
            let sep = if has_params || has_return { " *\n"@ } else { Seq::empty() };
            Some(
                "/**\n"@ + body_text(s.body) + sep + params_text(names, s.param_docs)
                    + out_param_text(has_out_param, s.returns_doc) + return_text(err_c_name, s.returns_doc)
                    + " */"@,
            )
        }
    }
}

/// The view of an optional string slice.
pub open spec fn opt_str_view(o: Option<&str>) -> Option<Seq<char>> {
    match o {
        Some(s) => Some(s@),
        None => None,
    }
}

fn push_body_line(out: &mut String, line: &String)
    ensures
        final(out)@ == old(out)@ + body_line(line@),
{
    let rv = chars_of(line.as_str());
    let sp = chars_of(" ");
    let t = match strip_prefix(rv.as_slice(), sp.as_slice()) {
        Some(rest) => rest,
        None => rv,
    };
    if t.len() == 0 {
        push_str(out, " *\n");
    } else {
        push_str(out, " * ");
        push_chars(out, t.as_slice());
        push_str(out, "\n");
    }
}

fn find_param_desc(docs: &Vec<(String, String)>, name: &str) -> (r: String)
    ensures
        r@ == param_desc(pairs_view(docs@), name@, 0),
{
    let ghost pv = pairs_view(docs@);
    let mut i: usize = 0;
    while i < docs.len()
        invariant
            i <= docs@.len(),
            pv == pairs_view(docs@),
            param_desc(pv, name@, 0) == param_desc(pv, name@, i as int),
        decreases docs@.len() - i,
    {
        if str_eq(docs[i].0.as_str(), name) {
            return docs[i].1.clone();
        }
        i = i + 1;
    }
    String::new()
}

fn push_body_text(out: &mut String, body: &Vec<String>)
    ensures
        final(out)@ == old(out)@ + body_text(strings_view(body@)),
{
    let ghost bv = strings_view(body@);
    let ghost o0 = out@;
    let mut i: usize = 0;
    assert(bv.take(0) =~= Seq::<Seq<char>>::empty());
    while i < body.len()
        invariant
            i <= body@.len(),
            bv == strings_view(body@),
            out@ == o0 + body_text(bv.take(i as int)),
        decreases body@.len() - i,
    {
        push_body_line(out, &body[i]);
        i = i + 1;
        assert(bv.take(i as int).drop_last() =~= bv.take(i - 1));
        assert(bv.take(i as int).last() == body@[i - 1]@);
        assert(out@ =~= o0 + body_text(bv.take(i as int)));
    }
    assert(bv.take(bv.len() as int) =~= bv);
}

fn push_params_text(out: &mut String, param_names: &[String], docs: &Vec<(String, String)>)
    ensures
        final(out)@ == old(out)@ + params_text(strings_view(param_names@), pairs_view(docs@)),
{
    let ghost names = strings_view(param_names@);
    let ghost dv = pairs_view(docs@);
    let ghost o0 = out@;
    assert(names.take(0) =~= Seq::<Seq<char>>::empty());
    let mut k: usize = 0;
    while k < param_names.len()
        invariant
            k <= param_names@.len(),
            names == strings_view(param_names@),
            dv == pairs_view(docs@),
            out@ == o0 + params_text(names.take(k as int), dv),
        decreases param_names@.len() - k,
    {
        let name = param_names[k].as_str();
        let desc = find_param_desc(docs, name);
        push_str(out, " * @param ");
        push_str(out, name);
        if desc.as_str().is_empty() {
            push_str(out, "\n");
        } else {
            push_str(out, " ");
            push_str(out, desc.as_str());
            push_str(out, "\n");
        }
        k = k + 1;
        assert(names.take(k as int).drop_last() =~= names.take(k - 1));
        assert(names.take(k as int).last() == param_names@[k - 1]@);
        assert(out@ =~= o0 + params_text(names.take(k as int), dv));
    }
    assert(names.take(names.len() as int) =~= names);
}

fn push_result_lines(
    out: &mut String,
    has_out_param: bool,
    returns_doc: &Option<String>,
    err_c_name: Option<&str>,
)
    ensures
        final(out)@ == old(out)@ + out_param_text(has_out_param, opt_view(*returns_doc))
            + return_text(opt_str_view(err_c_name), opt_view(*returns_doc)),
{
    let ghost o0 = out@;
    if has_out_param {
        match returns_doc {
            Some(doc) => {
                push_str(out, " * @param[out] result ");
                push_str(out, doc.as_str());
                push_str(out, "\n");
            },
            None => {
                push_str(out, " * @param[out] result\n");
            },
        }
    }
    assert(out@ =~= o0 + out_param_text(has_out_param, opt_view(*returns_doc)));
    let ghost o1 = out@;
    match err_c_name {
        Some(err_name) => {
            push_str(out, " * @return ");
            push_str(out, err_name);
            push_str(out, " with code 0 on success, error code on failure.\n");
        },
        None => {
            match returns_doc {
                Some(doc) => {
                    push_str(out, " * @return ");
                    push_str(out, doc.as_str());
                    push_str(out, "\n");
                },
                None => {},
            }
        },
    }
    assert(out@ =~= o1 + return_text(opt_str_view(err_c_name), opt_view(*returns_doc)));
}

/// Builds the Doxygen comment for a C declaration from its Rust doc lines.
pub fn build_doxygen_comment(
    doc_lines: &[String],
    param_names: &[String],
    has_out_param: bool,
    err_c_name: Option<&str>,
) -> (r: Option<String>)
    ensures
        opt_view(r) == doxygen_spec(
            strings_view(doc_lines@),
            strings_view(param_names@),
            has_out_param,
            opt_str_view(err_c_name),
        ),
{
    if doc_lines.len() == 0 {
        return None;
    }
    let sections = parse_doc_sections(doc_lines);
    if sections.body.len() == 0 && sections.param_docs.len() == 0 && sections.returns_doc.is_none() {
        return None;
    }
    let ghost sv = sections@;
    let mut out = owned("/**\n");
    push_body_text(&mut out, &sections.body);
    let has_params = param_names.len() > 0 || has_out_param;
    let has_return = err_c_name.is_some() || sections.returns_doc.is_some();
    let ghost o1 = out@;
    if has_params || has_return {
        push_str(&mut out, " *\n");
    }
    let ghost o2 = out@;
    push_params_text(&mut out, param_names, &sections.param_docs);
    let ghost o3 = out@;
    push_result_lines(&mut out, has_out_param, &sections.returns_doc, err_c_name);
    let ghost o4 = out@;
    push_str(&mut out, " */");
    proof {
        let sep: Seq<char> = if has_params || has_return { " *\n"@ } else { Seq::empty() };
        assert(o2 =~= o1 + sep);
        assert(out@ =~= "/**\n"@ + body_text(sv.body) + sep + params_text(strings_view(param_names@), sv.param_docs)
            + out_param_text(has_out_param, sv.returns_doc) + return_text(opt_str_view(err_c_name), sv.returns_doc)
            + " */"@);
    }
    Some(out)
}

} // verus!
