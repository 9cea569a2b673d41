//! C name resolution for the bridge: the prefixes derived from a library
//! prefix, and the parsing of Rust type strings into type references.

use vstd::prelude::*;
use crate::naming::{camel_to_upper_snake, camel_to_upper_snake_spec, snake_to_pascal, snake_to_pascal_spec, to_ascii_uppercase};
use crate::text::{
    alphanumeric_property, ascii_upper, char_is_alphanumeric, chars_of, ends_with, find_char,
    first_index, lemma_trim_char_len, lemma_trim_len, owned, push_str, slice_from, slice_range, split_at_char, split_char, str_eq, string_of, strip_prefix,
    strip_prefix_spec, trim, trim_end_char, trim_end_matches, trim_spec, trim_start_char,
    trim_start_matches, trim_str,
};

verus! {

// ---------------------------------------------------------------------------
// Type references
// ---------------------------------------------------------------------------

/// How a type is referenced.
#[derive(Clone, Copy, Debug, PartialEq, Eq, Structural)]
pub enum RefKind {
    /// By value.
    ByValue,
    /// `&T`.
    Shared,
    /// `&mut T`.
    Mut,
}

/// A parsed Rust type: `&'a mut Name<'b>` and the like.
pub struct TypeRef {
    pub name: String,
    pub ref_kind: RefKind,
    pub ref_lifetime: Option<String>,
    /// Lifetime arguments of the type, without the leading `'`.
    pub type_args: Vec<String>,
    /// Wrapped in `Option<..>`.
    pub optional: bool,
    /// An owned `Box<str>`.
    pub owned: bool,
}

/// The plain-value form of a [`TypeRef`].
pub struct TypeRefView {
    pub name: Seq<char>,
    pub ref_kind: RefKind,
    pub ref_lifetime: Option<Seq<char>>,
    pub type_args: Seq<Seq<char>>,
    pub optional: bool,
    pub owned: bool,
}

impl View for TypeRef {
    type V = TypeRefView;

    open spec fn view(&self) -> TypeRefView {
        TypeRefView {
            name: self.name@,
            ref_kind: self.ref_kind,
            ref_lifetime: match self.ref_lifetime {
                Some(l) => Some(l@),
                None => None,
            },
            type_args: self.type_args@.map_values(|a: String| a@),
            optional: self.optional,
            owned: self.owned,
        }
    }
}

/// For `kw < inner >` (after `kw`, spaces are allowed), the trimmed `inner`
/// without its closing `>`s.
pub open spec fn angle_inner(s: Seq<char>, kw: Seq<char>) -> Option<Seq<char>> {
    match strip_prefix_spec(s, kw) {
        None => None,
        Some(rest) => match strip_prefix_spec(trim_spec(rest), "<"@) {
            None => None,
            Some(inner) => Some(trim_spec(trim_end_char(trim_spec(inner), '>'))),
        },
    }
}

/// The length of a lifetime name at the start of `s`: letters, digits and
/// `_`.
pub open spec fn lifetime_len(s: Seq<char>) -> nat
    decreases s.len(),
{
    if s.len() > 0 && (alphanumeric_property(s[0]) || s[0] == '_') {
        1 + lifetime_len(s.drop_first())
    } else {
        0
    }
}

/// `mut ` at the start, and what follows it, trimmed.
pub open spec fn strip_mut(s: Seq<char>) -> Option<Seq<char>> {
    match strip_prefix_spec(s, "mut "@) {
        Some(r) => Some(trim_spec(r)),
        None => None,
    }
}

/// The reference part of a trimmed type string: its kind, its lifetime and
/// the rest of the string.  Both `& mut 'a T` and `& 'a mut T` are read.
pub open spec fn parse_ref(s: Seq<char>) -> (RefKind, Option<Seq<char>>, Seq<char>) {
    match strip_prefix_spec(s, "&"@) {
        None => (RefKind::ByValue, None, s),
        Some(r0) => {
            let rest = trim_spec(r0);
            let mut1 = strip_mut(rest) is Some;
            let rest1 = match strip_mut(rest) {
                Some(r) => r,
                None => rest,
            };
            let has_lt = rest1.len() > 0 && rest1[0] == '\'';
            let after = rest1.drop_first();
            let n = lifetime_len(after);
            let lifetime = if has_lt { Some(after.take(n as int)) } else { None };
            let rest2 = if has_lt { trim_spec(after.skip(n as int)) } else { rest1 };
            let mut2 = !mut1 && strip_mut(rest2) is Some;
            let rest3 = if mut2 { strip_mut(rest2)->0 } else { rest2 };
            (if mut1 || mut2 { RefKind::Mut } else { RefKind::Shared }, lifetime, rest3)
        },
    }
}

/// The non-empty lifetime arguments among comma-separated pieces, each
/// trimmed and without leading `'`.
pub open spec fn lifetime_args(parts: Seq<Seq<char>>) -> Seq<Seq<char>>
    decreases parts.len(),
{
    if parts.len() == 0 {
        Seq::empty()
    } else {
        let prev = lifetime_args(parts.drop_last());
        let a = trim_start_char(trim_spec(parts.last()), '\'');
        if a.len() > 0 {
            prev.push(a)
        } else {
            prev
        }
    }
}

/// The type name and its lifetime arguments: `View < 'a >` → `View`, `[a]`.
pub open spec fn name_and_args(s: Seq<char>) -> (Seq<char>, Seq<Seq<char>>) {
    match first_index(s, '<') {
        None => (s, Seq::empty()),
        Some(p) => (
            trim_spec(s.take(p)),
            lifetime_args(split_char(trim_spec(trim_end_char(trim_spec(s.skip(p + 1)), '>')), ',')),
        ),
    }
}

/// What `angle_inner` finds is shorter than the string it is found in.
pub proof fn lemma_angle_inner_len(s: Seq<char>, kw: Seq<char>)
    ensures
        angle_inner(s, kw) matches Some(i) ==> i.len() < s.len(),
{
    if let Some(rest) = strip_prefix_spec(s, kw) {
        let t = trim_spec(rest);
        lemma_trim_len(rest);
        if let Some(inner) = strip_prefix_spec(t, "<"@) {
            reveal_strlit("<");
            let ti = trim_spec(inner);
            lemma_trim_len(inner);
            lemma_trim_char_len(ti, '>');
            lemma_trim_len(trim_end_char(ti, '>'));
        }
    }
}

/// The type reference described by a Rust type string such as
/// `& 'a Widget`, `View < 'a >`, `Option < & str >` or `i32`.
pub open spec fn type_ref_spec(rust_type: Seq<char>) -> TypeRefView
    decreases rust_type.len(),
{
    let s = trim_spec(rust_type);
    match angle_inner(s, "Option"@) {
        Some(inner) => {
            proof {
                lemma_trim_len(rust_type);
                lemma_angle_inner_len(s, "Option"@);
            }
            TypeRefView { optional: true, ..type_ref_spec(inner) }
        },
        None => if angle_inner(s, "Box"@) == Some("str"@) {
            TypeRefView {
                name: "str"@,
                ref_kind: RefKind::ByValue,
                ref_lifetime: None,
                type_args: Seq::empty(),
                optional: false,
                owned: true,
            }
        } else {
            let r = parse_ref(s);
            let na = name_and_args(r.2);
            TypeRefView {
                name: na.0,
                ref_kind: r.0,
                ref_lifetime: r.1,
                type_args: na.1,
                optional: false,
                owned: false,
            }
        },
    }
}

fn angle_inner_of(s: &[char], kw: &str) -> (r: Option<Vec<char>>)
    ensures
        match r {
            Some(v) => angle_inner(s@, kw@) == Some(v@),
            None => angle_inner(s@, kw@) is None,
        },
{
    let kwv = chars_of(kw);
    match strip_prefix(s, kwv.as_slice()) {
        None => None,
        Some(rest) => {
            let t = trim(rest.as_slice());
            let lt = chars_of("<");
            match strip_prefix(t.as_slice(), lt.as_slice()) {
                None => None,
                Some(inner) => {
                    let a = trim(inner.as_slice());
                    let b = trim_end_matches(a.as_slice(), '>');
                    Some(trim(b.as_slice()))
                },
            }
        },
    }
}

fn lifetime_len_of(s: &[char]) -> (n: usize)
    ensures
        n == lifetime_len(s@),
        n <= s@.len(),
{
    let mut i: usize = 0;
    assert(s@.skip(0) =~= s@);
    while i < s.len() && (char_is_alphanumeric(s[i]) || s[i] == '_')
        invariant
            i <= s@.len(),
            lifetime_len(s@) == i + lifetime_len(s@.skip(i as int)),
        decreases s@.len() - i,
    {
        assert(s@.skip(i as int).drop_first() =~= s@.skip(i + 1));
        i = i + 1;
    }
    i
}

fn strip_mut_of(s: &[char]) -> (r: Option<Vec<char>>)
    ensures
        match r {
            Some(v) => strip_mut(s@) == Some(v@),
            None => strip_mut(s@) is None,
        },
{
    let m = chars_of("mut ");
    match strip_prefix(s, m.as_slice()) {
        Some(r) => Some(trim(r.as_slice())),
        None => None,
    }
}

fn parse_ref_of(s: &[char]) -> (r: (RefKind, Option<String>, Vec<char>))
    ensures
        parse_ref(s@) == (r.0, match r.1 {
            Some(l) => Some(l@),
            None => None,
        }, r.2@),
{
    let amp = chars_of("&");
    match strip_prefix(s, amp.as_slice()) {
        None => (RefKind::ByValue, None, slice_from(s, 0)),
        Some(r0) => {
            let rest = trim(r0.as_slice());
            let (mut1, rest1) = match strip_mut_of(rest.as_slice()) {
                Some(r) => (true, r),
                None => (false, rest),
            };
            let has_lt = rest1.len() > 0 && rest1[0] == '\'';
            let (lifetime, rest2) = if has_lt {
                let after = slice_from(rest1.as_slice(), 1);
                assert(after@ =~= rest1@.drop_first());
                let n = lifetime_len_of(after.as_slice());
                let lt = slice_range(after.as_slice(), 0, n);
                assert(lt@ =~= after@.take(n as int));
                let tail = slice_from(after.as_slice(), n);
                (Some(string_of(lt.as_slice())), trim(tail.as_slice()))
            } else {
                (None, rest1)
            };
            let (mut2, rest3) = if !mut1 {
                match strip_mut_of(rest2.as_slice()) {
                    Some(r) => (true, r),
                    None => (false, rest2),
                }
            } else {
                (false, rest2)
            };
            let rk = if mut1 || mut2 {
                RefKind::Mut
            } else {
                RefKind::Shared
            };
            (rk, lifetime, rest3)
        },
    }
}

fn lifetime_args_of(parts: &Vec<Vec<char>>) -> (r: Vec<String>)
    ensures
        r@.map_values(|a: String| a@) == lifetime_args(parts@.map_values(|p: Vec<char>| p@)),
{
    let ghost pv = parts@.map_values(|p: Vec<char>| p@);
    let mut out: Vec<String> = Vec::new();
    let mut i: usize = 0;
    assert(pv.take(0) =~= Seq::<Seq<char>>::empty());
    while i < parts.len()
        invariant
            i <= parts@.len(),
            pv == parts@.map_values(|p: Vec<char>| p@),
            out@.map_values(|a: String| a@) == lifetime_args(pv.take(i as int)),
        decreases parts@.len() - i,
    {
        let t = trim(parts[i].as_slice());
        let a = trim_start_matches(t.as_slice(), '\'');
        let ghost before = out@.map_values(|a: String| a@);
        if a.len() > 0 {
            out.push(string_of(a.as_slice()));
            assert(out@.map_values(|a: String| a@) =~= before.push(a@));
        }
        i = i + 1;
        assert(pv.take(i as int).drop_last() =~= pv.take(i - 1));
        assert(pv.take(i as int).last() == parts@[i - 1]@);
    }
    assert(pv.take(pv.len() as int) =~= pv);
    out
}

fn name_and_args_of(s: &[char]) -> (r: (String, Vec<String>))
    ensures
        name_and_args(s@) == (r.0@, r.1@.map_values(|a: String| a@)),
{
    match find_char(s, '<') {
        None => {
            let empty: Vec<String> = Vec::new();
            assert(empty@.map_values(|a: String| a@) =~= Seq::<Seq<char>>::empty());
            (string_of(s), empty)
        },
        Some(p) => {
            let head = slice_range(s, 0, p);
            assert(head@ =~= s@.take(p as int));
            let name = trim(head.as_slice());
            let n = s.len();
            assert(p < n);
            let after = slice_from(s, p + 1);
            let a = trim(after.as_slice());
            let b = trim_end_matches(a.as_slice(), '>');
            let c = trim(b.as_slice());
            let parts = split_at_char(c.as_slice(), ',');
            let args = lifetime_args_of(&parts);
            (string_of(name.as_slice()), args)
        },
    }
}

// ---------------------------------------------------------------------------
// The resolver
// ---------------------------------------------------------------------------

/// The prefixes derived from a library prefix such as `ft`.
pub struct CTypeResolver {
    /// Prefix of C type names: `Ft`.
    pub type_pfx: String,
    /// Prefix of C constants: `FT_`.
    pub upper_pfx: String,
    /// Prefix of C function names: `ft_`.
    pub fn_pfx: String,
}

/// The type-name prefix of a library prefix: `my_lib` → `MyLib`.
pub open spec fn type_prefix(prefix: Seq<char>) -> Seq<char> {
    snake_to_pascal_spec(prefix)
}

/// The constant prefix of a library prefix: `ft` → `FT_`.
pub open spec fn upper_prefix(prefix: Seq<char>) -> Seq<char> {
    ascii_upper(prefix) + "_"@
}

/// The function prefix of a library prefix: `ft` → `ft_`.
pub open spec fn fn_prefix(prefix: Seq<char>) -> Seq<char> {
    prefix + "_"@
}

/// `name` without a trailing `Error`, if it has one.
pub open spec fn strip_error_suffix(name: Seq<char>) -> Seq<char> {
    if "Error"@.is_suffix_of(name) {
        name.take(name.len() - 5)
    } else {
        name
    }
}

impl CTypeResolver {
    /// The resolver for a library prefix.
    pub fn new(prefix: &str) -> (r: CTypeResolver)
        ensures
            r.type_pfx@ == type_prefix(prefix@),
            r.upper_pfx@ == upper_prefix(prefix@),
            r.fn_pfx@ == fn_prefix(prefix@),
    {
        let type_pfx = snake_to_pascal(prefix);
        let mut upper_pfx = to_ascii_uppercase(prefix);
        push_str(&mut upper_pfx, "_");
        let mut fn_pfx = owned(prefix);
        push_str(&mut fn_pfx, "_");
        CTypeResolver { type_pfx, upper_pfx, fn_pfx }
    }

    /// The C type of a handle: the type prefix followed by the type name.
    pub fn handle_c_name(&self, name: &str) -> (r: String)
        ensures
            r@ == self.type_pfx@ + name@,
    {
        let mut out = self.type_pfx.clone();
        push_str(&mut out, name);
        out
    }

    /// The C name of an exported function: the function prefix followed by
    /// its FFI name.
    pub fn ffi_fn_name(&self, ffi_name: &str) -> (r: String)
        ensures
            r@ == self.fn_pfx@ + ffi_name@,
    {
        let mut out = self.fn_pfx.clone();
        push_str(&mut out, ffi_name);
        out
    }

    /// The C constant of an error variant: `FT_ERROR_TEST_NOT_FOUND` for
    /// `TestError::NotFound`; a trailing `Error` of the type name is dropped.
    pub fn error_const_name(&self, error_name: &str, variant_name: &str) -> (r: String)
        ensures
            r@ == self.upper_pfx@ + "ERROR_"@ + camel_to_upper_snake_spec(strip_error_suffix(error_name@))
                + "_"@ + camel_to_upper_snake_spec(variant_name@),
    {
        let ev = chars_of(error_name);
        let suffix = chars_of("Error");
        proof {
            reveal_strlit("Error");
        }
        let stripped = if ends_with(ev.as_slice(), suffix.as_slice()) {
            let n = ev.len() - 5;
            let head = slice_range(ev.as_slice(), 0, n);
            assert(head@ =~= ev@.take(ev@.len() - 5));
            string_of(head.as_slice())
        } else {
            owned(error_name)
        };
        let error_upper = camel_to_upper_snake(stripped.as_str());
        let variant_upper = camel_to_upper_snake(variant_name);
        let mut out = self.upper_pfx.clone();
        push_str(&mut out, "ERROR_");
        push_str(&mut out, error_upper.as_str());
        push_str(&mut out, "_");
        push_str(&mut out, variant_upper.as_str());
        out
    }

    /// Parses a Rust type string (e.g. `"& 'a Widget"`, `"View < 'a >"`,
    /// `"i32"`) into a type reference.
    pub fn to_type_ref(&self, rust_type: &str) -> (r: TypeRef)
        ensures
            r@ == type_ref_spec(rust_type@),
        decreases rust_type@.len(),
    {
        let s = trim_str(rust_type);
        proof {
            lemma_trim_len(rust_type@);
            lemma_angle_inner_len(s@, "Option"@);
        }
        match angle_inner_of(s.as_slice(), "Option") {
            Some(inner) => {
                let inner_s = string_of(inner.as_slice());
                let mut tr = self.to_type_ref(inner_s.as_str());
                tr.optional = true;
                return tr;
            },
            None => {},
        }
        match angle_inner_of(s.as_slice(), "Box") {
            Some(inner) => {
                let inner_s = string_of(inner.as_slice());
                if str_eq(inner_s.as_str(), "str") {
                    let empty: Vec<String> = Vec::new();
                    let r = TypeRef {
                        name: owned("str"),
                        ref_kind: RefKind::ByValue,
                        ref_lifetime: None,
                        type_args: empty,
                        optional: false,
                        owned: true,
                    };
                    assert(r@.type_args =~= Seq::<Seq<char>>::empty());
                    return r;
                }
            },
            None => {},
        }
        let (ref_kind, ref_lifetime, after_ref) = parse_ref_of(s.as_slice());
        let (name, type_args) = name_and_args_of(after_ref.as_slice());
        TypeRef { name, ref_kind, ref_lifetime, type_args, optional: false, owned: false }
    }
}

} // verus!
